use mxks::keycode::PhysKey;
use mxks::platform::win_hook::is_injected;
use mxks::platform::win_inject::{
    backspace_inputs, physical_replacement_inputs, replacement_inputs, replacement_inputs_for_app, scan_of,
    tab_inputs, text_inputs, InputMode, KeyInput, KEYUP, MAGIC, SCANCODE, SC_SHIFT, UNICODE, VK_BACK, VK_TAB,
};
use mxks::platform::win_keymap::{SC_BACKSPACE, SC_SPACE};

const NOTEPAD_PLUS_PLUS: &str = "notepad++.exe";

fn assert_tagged(inputs: &[KeyInput]) {
    assert!(inputs.iter().all(|input| input.extra_info == MAGIC));
}

fn assert_unicode_pairs(inputs: &[KeyInput]) {
    for pair in inputs.chunks_exact(2) {
        let down = pair[0];
        let up = pair[1];
        assert_eq!(down.vk, 0);
        assert_eq!(down.scan, up.scan);
        assert_eq!(down.flags, UNICODE);
        assert_eq!(up.flags, UNICODE | KEYUP);
    }
}

fn assert_replacement(inputs: &[KeyInput], erase: usize, replacement: &str) {
    let delete_events = erase * 2;
    assert_eq!(inputs.len(), delete_events + replacement.encode_utf16().count() * 2);
    assert_tagged(inputs);

    for pair in inputs[..delete_events].chunks_exact(2) {
        let down = pair[0];
        let up = pair[1];
        assert_eq!(down.vk, VK_BACK);
        assert_eq!(up.vk, VK_BACK);
        assert_eq!(down.scan, 0);
        assert_eq!(up.scan, 0);
        assert_eq!(down.flags, 0);
        assert_eq!(up.flags, KEYUP);
    }

    let unicode = &inputs[delete_events..];
    assert_unicode_pairs(unicode);
    let actual_units: Vec<_> = unicode.chunks_exact(2).map(|pair| pair[0].scan).collect();
    assert_eq!(actual_units, replacement.encode_utf16().collect::<Vec<_>>());
}

fn assert_physical_pairs(inputs: &[KeyInput], expected_scans: &[u16]) {
    assert_eq!(inputs.len(), expected_scans.len() * 2);
    assert_tagged(inputs);
    for (pair, expected_scan) in inputs.chunks_exact(2).zip(expected_scans) {
        let down = pair[0];
        let up = pair[1];
        assert_eq!(down.vk, 0);
        assert_eq!(up.vk, 0);
        assert_eq!(down.scan, *expected_scan);
        assert_eq!(up.scan, *expected_scan);
        assert_eq!(down.flags, SCANCODE);
        assert_eq!(up.flags, SCANCODE | KEYUP);
    }
}

fn scan_flags(inputs: &[KeyInput]) -> Vec<(u16, u32)> {
    inputs
        .iter()
        .map(|key| {
            assert_eq!(key.vk, 0);
            (key.scan, key.flags)
        })
        .collect()
}

#[test]
fn russian_word_uses_one_unicode_pair_per_letter() {
    let inputs = text_inputs("капельки");
    assert_eq!(inputs.len(), 16);
    assert_tagged(&inputs);
    assert_unicode_pairs(&inputs);
}

#[test]
fn mixed_case_is_exact_regardless_of_caps_state() {
    let inputs = text_inputs("Привет");
    assert_eq!(inputs.len(), 12);
    assert_tagged(&inputs);
    assert_unicode_pairs(&inputs);
    assert_eq!(inputs[0].scan, 'П' as u16);
}

#[test]
fn surrogate_pair_emits_two_complete_unit_lifecycles() {
    let inputs = text_inputs("💧");
    assert_eq!(inputs.len(), 4);
    assert_tagged(&inputs);
    assert_unicode_pairs(&inputs);
    let expected: Vec<u16> = "💧".encode_utf16().collect();
    assert_eq!(vec![inputs[0].scan, inputs[2].scan], expected);
}

#[test]
fn replacement_is_one_tagged_batch() {
    let to_russian = replacement_inputs(3, "рщц", " ");
    assert_replacement(&to_russian, 3, "рщц ");

    let to_english = replacement_inputs(4, "how", " ");
    assert_replacement(&to_english, 4, "how ");
}

#[test]
fn notepad_rfr_to_kak_space_is_one_physical_batch() {
    let (inputs, mode) = replacement_inputs_for_app(Some(NOTEPAD_PLUS_PLUS), 3, "как", " ", false);
    assert_eq!(mode, InputMode::PhysicalScancode);
    let scans = [
        SC_BACKSPACE as u16,
        SC_BACKSPACE as u16,
        SC_BACKSPACE as u16,
        scan_of(PhysKey::R).unwrap(),
        scan_of(PhysKey::F).unwrap(),
        scan_of(PhysKey::R).unwrap(),
        SC_SPACE as u16,
    ];

    assert_eq!(inputs.len(), 14);
    assert_physical_pairs(&inputs, &scans);
}

#[test]
fn notepad_kak_space_to_rfr_space_is_one_physical_batch() {
    let (inputs, mode) = replacement_inputs_for_app(Some(NOTEPAD_PLUS_PLUS), 4, "rfr", " ", false);
    assert_eq!(mode, InputMode::PhysicalScancode);
    let scans = [
        SC_BACKSPACE as u16,
        SC_BACKSPACE as u16,
        SC_BACKSPACE as u16,
        SC_BACKSPACE as u16,
        scan_of(PhysKey::R).unwrap(),
        scan_of(PhysKey::F).unwrap(),
        scan_of(PhysKey::R).unwrap(),
        SC_SPACE as u16,
    ];

    assert_eq!(inputs.len(), 16);
    assert_physical_pairs(&inputs, &scans);
}

#[test]
fn uppercase_physical_character_is_wrapped_in_shift() {
    let inputs = physical_replacement_inputs(0, "Как", "", false).expect("physical batch");
    assert_tagged(&inputs);
    let r = scan_of(PhysKey::R).unwrap();
    let f = scan_of(PhysKey::F).unwrap();
    assert_eq!(
        scan_flags(&inputs),
        vec![
            (SC_SHIFT, SCANCODE),
            (r, SCANCODE),
            (r, SCANCODE | KEYUP),
            (SC_SHIFT, SCANCODE | KEYUP),
            (f, SCANCODE),
            (f, SCANCODE | KEYUP),
            (r, SCANCODE),
            (r, SCANCODE | KEYUP),
        ]
    );
}

#[test]
fn caps_lock_on_wraps_lowercase_physical_letters_in_shift() {
    let inputs = physical_replacement_inputs(0, "как", "", true).expect("physical batch");
    assert_tagged(&inputs);
    let r = scan_of(PhysKey::R).unwrap();
    let f = scan_of(PhysKey::F).unwrap();
    assert_eq!(
        scan_flags(&inputs),
        vec![
            (SC_SHIFT, SCANCODE),
            (r, SCANCODE),
            (r, SCANCODE | KEYUP),
            (SC_SHIFT, SCANCODE | KEYUP),
            (SC_SHIFT, SCANCODE),
            (f, SCANCODE),
            (f, SCANCODE | KEYUP),
            (SC_SHIFT, SCANCODE | KEYUP),
            (SC_SHIFT, SCANCODE),
            (r, SCANCODE),
            (r, SCANCODE | KEYUP),
            (SC_SHIFT, SCANCODE | KEYUP),
        ]
    );
}

#[test]
fn caps_lock_on_uses_shift_only_for_lowercase_remainder() {
    let inputs = physical_replacement_inputs(0, "Как", "", true).expect("physical batch");
    assert_tagged(&inputs);
    let r = scan_of(PhysKey::R).unwrap();
    let f = scan_of(PhysKey::F).unwrap();
    assert_eq!(
        scan_flags(&inputs),
        vec![
            (r, SCANCODE),
            (r, SCANCODE | KEYUP),
            (SC_SHIFT, SCANCODE),
            (f, SCANCODE),
            (f, SCANCODE | KEYUP),
            (SC_SHIFT, SCANCODE | KEYUP),
            (SC_SHIFT, SCANCODE),
            (r, SCANCODE),
            (r, SCANCODE | KEYUP),
            (SC_SHIFT, SCANCODE | KEYUP),
        ]
    );
}

#[test]
fn unsupported_notepad_character_falls_back_to_whole_unicode_batch() {
    assert!(physical_replacement_inputs(3, "как!", " ", false).is_none());

    let (inputs, mode) = replacement_inputs_for_app(Some(NOTEPAD_PLUS_PLUS), 3, "как!", " ", false);
    assert_eq!(mode, InputMode::Unicode);
    assert_replacement(&inputs, 3, "как! ");
}

#[test]
fn physical_mode_is_limited_to_exact_notepad_process_name() {
    for app in [None, Some("chrome.exe"), Some("NOTEPAD++.EXE")] {
        let (inputs, mode) = replacement_inputs_for_app(app, 3, "как", " ", false);
        assert_eq!(mode, InputMode::Unicode);
        assert_replacement(&inputs, 3, "как ");
    }
}

#[test]
fn backspace_and_tab_batches() {
    let b = backspace_inputs(2);
    assert_eq!(b.len(), 4);
    assert_eq!((b[0].vk, b[0].flags, b[1].flags), (VK_BACK, 0, KEYUP));
    let t = tab_inputs();
    assert_eq!((t[0].vk, t[1].vk, t[1].flags), (VK_TAB, VK_TAB, KEYUP));
    assert_tagged(&t);
}

#[test]
fn injected_flag_suppresses_event_when_extra_info_is_lost() {
    assert!(is_injected(0, true));
}

#[test]
fn magic_tag_suppresses_event_without_injected_flag() {
    assert!(is_injected(MAGIC, false));
}

#[test]
fn physical_event_is_not_suppressed() {
    assert!(!is_injected(0, false));
}
