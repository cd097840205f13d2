use mxks::platform::capture::Mods;
use mxks::hotkey::parse;
use mxks::platform::win_hook::{classify, is_modifier_vk, HookState, HookVerdict, HotkeyEdgeState};
use mxks::platform::KeyKind;
use mxks::PhysKey;

#[test]
fn down_repeats_and_up_emit_one_hotkey() {
    let mut state = HotkeyEdgeState::new();
    let vk = 0x13;

    assert!(state.consume_key_down(vk, true));
    assert!(state.consume_key_down(vk, true));
    assert!(state.consume_key_down(vk, true));
    assert!(state.emit_on_key_up(vk));
    assert!(!state.emit_on_key_up(vk));
}

#[test]
fn unrelated_keyup_does_not_consume_pending_hotkey() {
    let mut state = HotkeyEdgeState::new();
    let vk = 0x13;

    assert!(state.consume_key_down(vk, true));
    assert!(!state.emit_on_key_up(0x20));
    assert!(state.emit_on_key_up(vk));
}

#[test]
fn second_physical_press_emits_second_hotkey() {
    let mut state = HotkeyEdgeState::new();
    let vk = 0x13;

    assert!(state.consume_key_down(vk, true));
    assert!(state.emit_on_key_up(vk));
    assert!(state.consume_key_down(vk, true));
    assert!(state.emit_on_key_up(vk));
}

#[test]
fn unmatched_keydown_never_arms() {
    let mut state = HotkeyEdgeState::new();
    let vk = 0x13;

    assert!(!state.consume_key_down(vk, false));
    assert!(!state.emit_on_key_up(vk));
}

#[test]
fn modifier_config_is_matched_only_on_keydown() {
    let mut state = HotkeyEdgeState::new();
    let vk = 0x13;

    assert!(state.consume_key_down(vk, true));
    assert!(state.consume_key_down(vk, false));
    assert!(state.emit_on_key_up(vk));

    assert!(!state.consume_key_down(vk, false));
    assert!(!state.emit_on_key_up(vk));
}

#[test]
fn zero_virtual_key_is_never_a_hotkey() {
    let mut state = HotkeyEdgeState::new();
    assert!(!state.consume_key_down(0, true));
    assert!(!state.emit_on_key_up(0));
}

#[test]
fn windows_classification() {
    let none = Mods { shift: false, ctrl: false, alt: false, meta: false };
    let shift = Mods { shift: true, ..none };
    let ctrl = Mods { ctrl: true, ..none };
    assert_eq!(classify(0x1E, 0x41, shift), Some(KeyKind::Letter { key: PhysKey::A, shift: true }));
    assert_eq!(classify(0x1E, 0x41, ctrl), Some(KeyKind::Reset));
    assert_eq!(classify(0x0E, 0x08, none), Some(KeyKind::Backspace));
    assert_eq!(classify(0x39, 0x20, none), Some(KeyKind::Boundary { sep: Some(' ') }));
    assert_eq!(classify(0x1C, 0x0D, none), Some(KeyKind::Boundary { sep: None }));
    assert_eq!(classify(0x2A, 0x10, none), None);
    assert_eq!(classify(0x48, 0x26, none), Some(KeyKind::Reset));
    assert!(is_modifier_vk(0xA3));
    assert!(!is_modifier_vk(0x41));
}

const NO_MODS: Mods = Mods { shift: false, ctrl: false, alt: false, meta: false };

fn name(s: &str) -> Option<String> {
    Some(s.to_string())
}

#[test]
fn hook_swallows_the_accept_key_and_its_key_up() {
    let mut hook = HookState::new();
    let tab = parse("Tab").unwrap();
    let pause = parse("Pause").unwrap();
    let down = hook.decide(true, 0x0F, 0x09, false, &name("TAB"), NO_MODS, Some(&tab), false, &pause);
    assert!(matches!(down, HookVerdict::Accept));
    let up = hook.decide(false, 0x0F, 0x09, false, &name("TAB"), NO_MODS, None, false, &pause);
    assert!(matches!(up, HookVerdict::SwallowUp));
    let again = hook.decide(false, 0x0F, 0x09, false, &name("TAB"), NO_MODS, None, false, &pause);
    assert!(matches!(again, HookVerdict::Pass));
}

#[test]
fn hook_emits_the_hotkey_once_on_key_up_and_ignores_synthetic_input() {
    let mut hook = HookState::new();
    let pause = parse("Pause").unwrap();
    for _ in 0..3 {
        let d = hook.decide(true, 0x45, 0x13, false, &name("PAUSE"), NO_MODS, None, false, &pause);
        assert!(matches!(d, HookVerdict::Pass));
    }
    let synthetic = hook.decide(false, 0x45, 0x13, true, &name("PAUSE"), NO_MODS, None, false, &pause);
    assert!(matches!(synthetic, HookVerdict::Pass));
    let up = hook.decide(false, 0x45, 0x13, false, &name("PAUSE"), NO_MODS, None, false, &pause);
    assert!(matches!(up, HookVerdict::Send(KeyKind::Hotkey)));
    let up2 = hook.decide(false, 0x45, 0x13, false, &name("PAUSE"), NO_MODS, None, false, &pause);
    assert!(matches!(up2, HookVerdict::Pass));
}

#[test]
fn hook_captures_while_capturing_and_classifies_otherwise() {
    let mut hook = HookState::new();
    let pause = parse("Pause").unwrap();
    let ctrl = Mods { ctrl: true, ..NO_MODS };
    match hook.decide(true, 0x25, 0x4B, false, &name("K"), ctrl, None, true, &pause) {
        HookVerdict::Capture(spec) => assert_eq!(spec, parse("Ctrl+K").unwrap()),
        other => panic!("expected a capture, got {other:?}"),
    }
    let bare = hook.decide(true, 0x25, 0x4B, false, &name("K"), NO_MODS, None, true, &pause);
    assert!(matches!(bare, HookVerdict::Pass));
    let letter = hook.decide(true, 0x25, 0x4B, false, &name("K"), NO_MODS, None, false, &pause);
    assert!(matches!(letter, HookVerdict::Send(KeyKind::Letter { key: PhysKey::K, shift: false })));
}
