use mxks::config::{Autocomplete, General, Hotkeys, Settings, Terminals};

#[test]
fn defaults_are_sane() {
    let s = Settings::default();
    assert!(s.general.autocorrect);
    assert_eq!(s.general.min_word_len, 3);
    assert_eq!(s.hotkeys.convert_last_word, "Pause");
    assert!(s.exclusions.apps.is_empty());
    assert!(s.exclusions.manual_only.is_empty());
    assert!(s.terminals.apps.iter().any(|a| a == "ptyxis"));
    assert_eq!(s.terminals.apps.len(), 10);
    assert!(!s.terminals.auto);
    assert_eq!(s.terminals.accept_key, "Right");
    assert!(s.autocomplete.enabled);
    assert_eq!(s.autocomplete.accept_key, "Tab");
    assert_eq!(s.autocomplete.min_prefix, 3);
    assert_eq!(s.autocomplete.min_remainder, 1);
}

#[test]
fn section_defaults_match_the_whole() {
    assert_eq!(General::default().min_word_len, 3);
    assert_eq!(Hotkeys::default().convert_last_word, "Pause");
    assert_eq!(Terminals::default().accept_key, "Right");
    assert_eq!(Autocomplete::default().accept_key, "Tab");
}
