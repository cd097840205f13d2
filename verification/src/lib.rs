//! Pure, OS-independent logic of a keyboard-layout switcher: the physical-key
//! model, layout tables, text conversion, the word buffer, the dictionary,
//! hotkey parsing, learned autocomplete counters, and the decision logic of
//! the capture backends and of the engine.

pub mod autostart;
pub mod buffer;
pub mod config;
pub mod config_edit;
pub mod convert;
pub mod corrector;
pub mod detect;
pub mod dict;
pub mod engine;
pub mod hotkey;
pub mod keycode;
pub mod layout;
pub mod logging;
pub mod menu;
pub mod platform;
pub mod session;
pub mod text;
pub mod tables;
pub mod unicode;
pub mod usage;
pub mod usage_store;

pub use keycode::PhysKey;
pub use layout::Lang;
