use mxks::hotkey::{parse, HotkeySpec};
use mxks::platform::capture::{capture_spec, matches_spec, norm_mods, Mods};
use mxks::platform::suppress::{Filter, Suppress};
use mxks::platform::x11_record::{mods, RecordAction, X11Keymap};
use mxks::platform::xkb::{is_cyrillic, is_latin, XkbGroups};
use mxks::platform::{default_accept, mac_keymap, mac_layout, mac_tap, win_keymap, x11_keymap, KeyKind, StubOverlay};
use mxks::{Lang, PhysKey};

const NONE: Mods = Mods { shift: false, ctrl: false, alt: false, meta: false };

#[test]
fn x11_letter_keycodes_round_trip() {
    assert_eq!(x11_keymap::phys_of(38), Some(PhysKey::A));
    assert_eq!(x11_keymap::keycode_of(PhysKey::A), 38);
    assert_eq!(x11_keymap::phys_of(49), Some(PhysKey::Backtick));
    assert_eq!(x11_keymap::phys_of(7), None);
    assert_eq!(x11_keymap::phys_of(22), None);
    for code in 0..=255u8 {
        if let Some(k) = x11_keymap::phys_of(code) {
            assert_eq!(x11_keymap::keycode_of(k), code);
            assert!(!x11_keymap::is_boundary(code));
        }
    }
}

#[test]
fn x11_boundaries_and_names() {
    assert!(x11_keymap::is_boundary(65));
    assert!(x11_keymap::is_boundary(36));
    assert!(x11_keymap::is_boundary(10));
    assert!(!x11_keymap::is_boundary(22));
    assert!(!x11_keymap::is_boundary(3));
    assert_eq!(x11_keymap::key_letter_name(38), Some("A".to_string()));
    assert_eq!(x11_keymap::key_letter_name(34), None);
    assert_eq!(x11_keymap::named_keysym(0xff13), Some("PAUSE"));
    assert_eq!(x11_keymap::named_keysym(0xff6b), Some("PAUSE"));
    assert_eq!(x11_keymap::named_keysym(0xffbe), Some("F1"));
    assert_eq!(x11_keymap::named_keysym(0xffc9), Some("F12"));
    assert_eq!(x11_keymap::named_keysym(0xffcd), Some("F16"));
    assert_eq!(x11_keymap::named_keysym(0xffce), None);
    assert_eq!(x11_keymap::named_keysym(0x0020), Some("SPACE"));
    assert!(x11_keymap::is_modifier_keysym(0xffe3));
    assert!(x11_keymap::is_modifier_keysym(0xfe03));
    assert!(!x11_keymap::is_modifier_keysym(0xff13));
}

#[test]
fn mac_and_windows_key_maps() {
    assert_eq!(mac_keymap::phys_of(0x00), Some(PhysKey::A));
    assert_eq!(mac_keymap::phys_of(0x33), None);
    assert!(mac_keymap::is_boundary(0x31));
    assert_eq!(mac_keymap::key_letter_name(0x0C), Some("Q".to_string()));
    assert_eq!(mac_keymap::key_letter_name(0x21), None);
    assert_eq!(mac_keymap::named_keycode(0x7A), Some("F1"));
    assert_eq!(mac_keymap::named_keycode(0x79), Some("PAGEDOWN"));
    assert_eq!(mac_keymap::named_keycode(0x00), None);
    assert_eq!(win_keymap::phys_of(0x10), Some(PhysKey::Q));
    assert!(win_keymap::is_boundary(0x0D));
    assert!(!win_keymap::is_boundary(0x0E));
    assert_eq!(win_keymap::vk_for_name("PAUSE"), Some(0x13));
    assert_eq!(win_keymap::vk_for_name("F12"), Some(0x7B));
    assert_eq!(win_keymap::vk_for_name("k"), Some(0x4B));
    assert_eq!(win_keymap::vk_for_name("7"), None);
    assert_eq!(win_keymap::vk_for_name("é"), None);
    assert_eq!(win_keymap::vk_for_name("F13"), None);
}

#[test]
fn capture_never_assigns_a_bare_letter() {
    let name = Some("K".to_string());
    assert!(capture_spec(&name, NONE).is_none());
    let ctrl = Mods { ctrl: true, ..NONE };
    let spec = capture_spec(&name, ctrl).unwrap();
    assert!(spec.ctrl);
    assert_eq!(spec.key, "K");
    assert!(capture_spec(&None, ctrl).is_none());
    let pause = capture_spec(&Some("PAUSE".to_string()), ctrl).unwrap();
    assert!(!pause.ctrl);
    assert_eq!(norm_mods(&Some("PAUSE".to_string()), ctrl), NONE);
}

#[test]
fn hotkey_matching_ignores_case_and_pause_control() {
    let spec = parse("Pause").unwrap();
    let ctrl = Mods { ctrl: true, ..NONE };
    assert!(matches_spec(&spec, &Some("PAUSE".to_string()), ctrl));
    assert!(matches_spec(&spec, &Some("pause".to_string()), NONE));
    assert!(!matches_spec(&spec, &Some("PAUSE".to_string()), Mods { shift: true, ..NONE }));
    let k = parse("Ctrl+K").unwrap();
    assert!(matches_spec(&k, &Some("K".to_string()), ctrl));
    assert!(!matches_spec(&k, &Some("K".to_string()), NONE));
    assert!(!matches_spec(&k, &None, ctrl));
}

fn event(kind: u8, detail: u8, state: u16) -> [u8; 32] {
    let mut d = [0u8; 32];
    d[0] = kind;
    d[1] = detail;
    d[28] = (state & 0xff) as u8;
    d[29] = (state >> 8) as u8;
    d
}

#[test]
fn x11_record_decisions() {
    // keysyms for keycodes 8..: keycode 127 carries Pause, 37 Control_L.
    let mut syms = vec![0u32; 2 * 248];
    syms[(127 - 8) * 2] = 0xff13;
    syms[(37 - 8) * 2] = 0xffe3;
    let km = X11Keymap::new(syms, 2, 8);
    let hotkey = HotkeySpec::default();
    let mut s = Suppress::new();

    assert_eq!(km.name_of(127), Some("PAUSE".to_string()));
    assert_eq!(km.name_of(38), Some("A".to_string()));
    assert!(km.is_modifier(37));
    assert_eq!(mods(0x45), Mods { shift: true, ctrl: true, alt: false, meta: true });

    let r = km.decide(&event(2, 38, 1), &mut s, 1, None, false, &hotkey);
    assert!(matches!(r, RecordAction::Send(KeyKind::Letter { key: PhysKey::A, shift: true })));
    let r = km.decide(&event(2, 127, 4), &mut s, 1, None, false, &hotkey);
    assert!(matches!(r, RecordAction::Send(KeyKind::Hotkey)));
    let r = km.decide(&event(2, 37, 0), &mut s, 1, None, false, &hotkey);
    assert!(matches!(r, RecordAction::Ignore));
    let r = km.decide(&event(4, 1, 0), &mut s, 1, None, false, &hotkey);
    assert!(matches!(r, RecordAction::Send(KeyKind::Reset)));
    let r = km.decide(&event(4, 5, 0), &mut s, 1, None, false, &hotkey);
    assert!(matches!(r, RecordAction::Ignore));
    let r = km.decide(&event(3, 38, 0), &mut s, 1, None, false, &hotkey);
    assert!(matches!(r, RecordAction::Ignore));

    s.expect(65);
    let r = km.decide(&event(2, 65, 0), &mut s, 1, None, false, &hotkey);
    assert!(matches!(r, RecordAction::Ignore));
    let r = km.decide(&event(2, 65, 0), &mut s, 1, None, false, &hotkey);
    assert!(matches!(r, RecordAction::Send(KeyKind::Boundary { sep: Some(' ') })));

    let accept = default_accept();
    let mut tab_syms = vec![0u32; 2 * 248];
    tab_syms[(23 - 8) * 2] = 0xff09;
    let km2 = X11Keymap::new(tab_syms, 2, 8);
    let r = km2.decide(&event(2, 23, 0), &mut s, 1, Some(&accept), false, &hotkey);
    assert!(matches!(r, RecordAction::Send(KeyKind::Boundary { sep: None })));

    let r = km.decide(&event(2, 127, 0), &mut s, 1, None, true, &hotkey);
    match r {
        RecordAction::Capture(spec) => assert_eq!(spec.key, "PAUSE"),
        other => panic!("expected a capture, got {other:?}"),
    }
    let r = km.decide(&event(2, 38, 0), &mut s, 1, None, true, &hotkey);
    assert!(matches!(r, RecordAction::Ignore));
}

#[test]
fn xkb_groups_are_detected_from_the_probe_key() {
    assert!(is_latin(0x61));
    assert!(is_cyrillic(0x6c6));
    assert!(is_cyrillic(0x0100_0444));
    let g = XkbGroups::detect(4, &[0x61, 0x41, 0x6c6, 0x6e6]);
    assert_eq!(g, XkbGroups { en_group: Some(0), ru_group: Some(1) });
    assert_eq!(g.lang_of_group(1), Some(Lang::Ru));
    assert_eq!(g.lang_of_group(2), None);
    assert_eq!(g.group_of_lang(Lang::En), Some(0));
    let g = XkbGroups::detect(1, &[0x6c6]);
    assert_eq!(g, XkbGroups { en_group: None, ru_group: Some(0) });
    let g = XkbGroups::detect(20, &[0x6c6, 0, 0, 0, 0, 0, 0, 0, 0x61]);
    assert_eq!(g, XkbGroups { en_group: None, ru_group: Some(0) });
}

#[test]
fn mac_input_sources_and_classification() {
    assert_eq!(mac_layout::lang_of_id("com.apple.keylayout.russian"), Some(Lang::Ru));
    assert_eq!(mac_layout::lang_of_id("com.apple.keylayout.us"), Some(Lang::En));
    assert_eq!(mac_layout::lang_of_id("com.apple.keylayout.abc"), Some(Lang::En));
    assert_eq!(mac_layout::lang_of_id("com.apple.keylayout.german"), None);
    assert!(mac_layout::id_matches(Lang::Ru, "com.apple.keylayout.russianwin"));
    assert!(!mac_layout::id_matches(Lang::En, "com.apple.keylayout.russian"));
    let spec = parse("F5").unwrap();
    assert_eq!(mac_tap::classify(0x60, NONE, &spec), Some(KeyKind::Hotkey));
    assert_eq!(mac_tap::classify(0x00, NONE, &spec), Some(KeyKind::Letter { key: PhysKey::A, shift: false }));
    assert_eq!(mac_tap::classify(0x33, NONE, &spec), Some(KeyKind::Backspace));
    assert_eq!(mac_tap::classify(0x00, Mods { meta: true, ..NONE }, &spec), Some(KeyKind::Reset));
    assert_eq!(mac_tap::name_of(0x73), Some("HOME".to_string()));
}

#[test]
fn default_accept_is_plain_tab_and_stub_overlay_is_unavailable() {
    let a = default_accept();
    assert_eq!(a.key, "TAB");
    assert!(!a.ctrl && !a.shift && !a.alt && !a.meta);
    assert!(!StubOverlay.available());
    let _ = Filter::Real;
}
