use mxks::config_edit::{update_key, ConfigEditError, ConfigValue};
use mxks::logging::{log_dir_choice, needs_rotation, MAX_LOG_BYTES};

fn valid(text: &str) -> bool {
    toml::from_str::<toml::Table>(text).is_ok()
}

fn table(text: &str) -> toml::Table {
    toml::from_str::<toml::Table>(text).unwrap()
}

#[test]
fn partial_config_updates_preserve_tables_and_comments() {
    for input in [
        "# keep\n[autocomplete] # settings\nmin_prefix = 4\n",
        "# keep\nautocomplete = { min_prefix = 4 }\n",
        "# keep\nautocomplete.min_prefix = 4\n",
    ] {
        let output = update_key(input, "autocomplete", "enabled", ConfigValue::Flag(false), valid(input)).unwrap();
        let t = table(&output);
        let section = t["autocomplete"].as_table().unwrap();
        assert_eq!(section["enabled"].as_bool(), Some(false));
        assert_eq!(section["min_prefix"].as_integer(), Some(4));
        assert!(output.contains("# keep"));
    }
}

#[test]
fn config_updates_preserve_inline_comments_and_escape_values() {
    let text = "[logging]\nenabled = false # opt-in\n";
    let output = update_key(text, "logging", "enabled", ConfigValue::Flag(true), valid(text)).unwrap();
    assert!(output.contains("true # opt-in"));
    let directory = "C:\\Users\\a\\\"logs\"";
    let output =
        update_key(&output, "logging", "directory", ConfigValue::Text(directory.to_string()), valid(&output)).unwrap();
    assert_eq!(table(&output)["logging"]["directory"].as_str(), Some(directory));
    assert!(update_key("[logging", "logging", "enabled", ConfigValue::Flag(true), valid("[logging")).is_err());
}

#[test]
fn an_invalid_config_is_refused_before_editing() {
    assert_eq!(
        update_key("[general]\nautocorrect = true\n", "general", "autocorrect", ConfigValue::Flag(false), false),
        Err(ConfigEditError::InvalidConfig)
    );
}

#[test]
fn a_missing_section_is_added_and_a_non_table_section_is_an_editor_error() {
    let out = update_key("# only a comment\n", "terminals", "auto", ConfigValue::Flag(true), true).unwrap();
    assert_eq!(table(&out)["terminals"]["auto"].as_bool(), Some(true));
    assert!(matches!(
        update_key("terminals = 5\n", "terminals", "auto", ConfigValue::Flag(true), true),
        Err(ConfigEditError::Toml(_))
    ));
}

#[test]
fn log_rotates_only_past_four_mebibytes() {
    assert_eq!(MAX_LOG_BYTES, 4 * 1024 * 1024);
    assert!(!needs_rotation(0));
    assert!(!needs_rotation(4 * 1024 * 1024));
    assert!(needs_rotation(4 * 1024 * 1024 + 1));
}

#[test]
fn blank_log_folder_means_the_platform_default() {
    assert_eq!(log_dir_choice(""), None);
    assert_eq!(log_dir_choice("  \t "), None);
    assert_eq!(log_dir_choice("/tmp/mxks logs"), Some("/tmp/mxks logs".to_string()));
    assert_eq!(log_dir_choice(" /tmp/x "), Some(" /tmp/x ".to_string()));
}
