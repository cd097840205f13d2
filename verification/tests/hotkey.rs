use mxks::hotkey::{parse, HotkeySpec};

#[test]
fn plain_key() {
    let h = parse("Pause").unwrap();
    assert_eq!(h.key, "PAUSE");
    assert!(!h.ctrl && !h.shift && !h.alt && !h.meta);
}

#[test]
fn chord() {
    let h = parse("Ctrl+Shift+K").unwrap();
    assert!(h.ctrl && h.shift);
    assert_eq!(h.key, "K");
}

#[test]
fn aliases() {
    assert_eq!(parse("Break").unwrap().key, "PAUSE");
    assert_eq!(parse("win+space").unwrap().key, "SPACE");
    assert!(parse("win+space").unwrap().meta);
}

#[test]
fn no_key_is_none() {
    assert!(parse("Ctrl+Shift").is_none());
    assert!(parse("").is_none());
}

#[test]
fn display_parses_back_to_the_same_hotkey() {
    let h = parse(" ctrl + alt + f5 ").unwrap();
    let shown = h.display();
    assert_eq!(shown, "Ctrl+Alt+F5");
    assert_eq!(parse(&shown).unwrap(), h);
}

#[test]
fn default_hotkey_is_pause() {
    let h = HotkeySpec::default();
    assert_eq!(h.key, "PAUSE");
    assert_eq!(h.display(), "Pause");
    assert_eq!(parse(&h.display()).unwrap(), h);
}

#[test]
fn display_orders_modifiers_and_shows_the_key_readably() {
    let k = parse("Ctrl+Shift+K").unwrap();
    assert_eq!(k.display(), "Ctrl+Shift+K");
    let all = parse("super+shift+alt+ctrl+f5").unwrap();
    assert_eq!(all.display(), "Ctrl+Alt+Shift+Super+F5");
    let scroll = parse("ScrLk").unwrap();
    assert_eq!(scroll.display(), "Scrolllock");
    assert_eq!(parse(&scroll.display()).unwrap(), scroll);
}

#[test]
fn parsing_ignores_case() {
    for s in ["ctrl+shift+k", "Ctrl+Shift+K", " pause ", "win+space", "scrlk"] {
        assert_eq!(parse(s), parse(&s.to_ascii_uppercase()));
    }
}
