[package]
name = "mxks"
version = "0.1.0"
edition = "2021"
publish = false

[dependencies]
anyhow = "1"
crossbeam-channel = "0.5"
dirs = "5"
serde = { version = "1", features = ["derive"] }
toml = "0.8"
toml_edit = "0.21"
tracing = "0.1"
tracing-subscriber = { version = "0.3", features = ["env-filter"] }
x11rb = { version = "0.13", features = ["record", "xkb", "xtest"] }
