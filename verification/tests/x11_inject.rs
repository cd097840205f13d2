use mxks::hotkey::parse;
use mxks::platform::x11_inject::{base_mask, lock_variants, replacement_taps, tap_for_char, type_taps, Tap, KC_TAB};
use mxks::platform::x11_keymap::{keycode_of, KC_BACKSPACE, KC_SPACE};
use mxks::PhysKey;

#[test]
fn characters_map_to_physical_taps() {
    assert_eq!(tap_for_char('р'), Some(Tap { keycode: keycode_of(PhysKey::H), shift: false, release_first: false }));
    assert_eq!(tap_for_char('Щ'), Some(Tap { keycode: keycode_of(PhysKey::O), shift: true, release_first: false }));
    assert_eq!(tap_for_char('w'), Some(Tap { keycode: keycode_of(PhysKey::W), shift: false, release_first: false }));
    assert_eq!(tap_for_char(' '), Some(Tap { keycode: KC_SPACE, shift: false, release_first: true }));
    assert_eq!(tap_for_char('!'), None);
    assert_eq!(KC_TAB, 23);
}

#[test]
fn replacement_erases_then_types() {
    let taps = replacement_taps(2, "рщ", " ");
    assert_eq!(taps.len(), 5);
    assert_eq!(taps[0].keycode, KC_BACKSPACE);
    assert_eq!(taps[1].keycode, KC_BACKSPACE);
    assert_eq!(taps[2].keycode, keycode_of(PhysKey::H));
    assert_eq!(taps[3].keycode, keycode_of(PhysKey::O));
    assert!(taps[4].release_first);
    assert_eq!(type_taps("a?b").len(), 2);
}

#[test]
fn grab_masks() {
    assert_eq!(base_mask(&parse("Tab").unwrap()), 0);
    assert_eq!(base_mask(&parse("Ctrl+Shift+K").unwrap()), 5);
    assert_eq!(base_mask(&parse("Alt+Super+F8").unwrap()), 72);
    assert_eq!(lock_variants(), [0, 2, 16, 18]);
}
