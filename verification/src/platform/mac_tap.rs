//! Decision logic of the macOS event tap: key names and the classification
//! of a key-press into an engine event.

use vstd::prelude::*;

use crate::hotkey::{HotkeySpec, HotkeyView};
use crate::platform::capture::{chord, hotkey_matches, matches_spec, name_view, Mods};
use crate::platform::keynames::letter_key_name;
use crate::platform::mac_keymap::{
    is_boundary, key_letter_name, mac_boundary, mac_key_name, mac_letter, named_keycode, phys_of, KC_DELETE,
    KC_SPACE,
};
use crate::platform::KeyKind;
use crate::text::string_from;

verus! {

/// The canonical hotkey name of a macOS keycode: letters through the
/// physical key, otherwise a named keycode.
pub open spec fn mac_name(keycode: u16) -> Option<Seq<char>> {
    if mac_letter(keycode) is Some && letter_key_name(mac_letter(keycode)->0) is Some {
        letter_key_name(mac_letter(keycode)->0)
    } else {
        mac_key_name(keycode)
    }
}

/// Resolve the canonical hotkey name of a macOS keycode.
pub fn name_of(keycode: u16) -> (r: Option<String>)
    ensures
        name_view(r) == mac_name(keycode),
{
    match key_letter_name(keycode) {
        Some(n) => Some(n),
        None => match named_keycode(keycode) {
            Some(s) => Some(string_from(s)),
            None => None,
        },
    }
}

/// The engine event of a key-press with keycode `keycode` under `m`.
pub open spec fn mac_kind(keycode: u16, m: Mods, hotkey: HotkeyView) -> KeyKind {
    if mac_name(keycode) is Some && hotkey_matches(hotkey, mac_name(keycode)->0, m) {
        KeyKind::Hotkey
    } else if chord(m) {
        KeyKind::Reset
    } else if mac_letter(keycode) is Some {
        KeyKind::Letter { key: mac_letter(keycode)->0, shift: m.shift }
    } else if keycode == KC_DELETE {
        KeyKind::Backspace
    } else if keycode == KC_SPACE {
        KeyKind::Boundary { sep: Some(' ') }
    } else if mac_boundary(keycode) {
        KeyKind::Boundary { sep: None }
    } else {
        KeyKind::Reset
    }
}

/// Classify a key-press for the engine: the hotkey first, then chords
/// (reset), letters, Delete, Space, other boundaries, and anything else
/// (reset).
pub fn classify(keycode: u16, m: Mods, hotkey: &HotkeySpec) -> (r: Option<KeyKind>)
    ensures
        r == Some(mac_kind(keycode, m, hotkey@)),
{
    let name = name_of(keycode);
    if matches_spec(hotkey, &name, m) {
        return Some(KeyKind::Hotkey);
    }
    if m.ctrl || m.alt || m.meta {
        return Some(KeyKind::Reset);
    }
    match phys_of(keycode) {
        Some(key) => {
            return Some(KeyKind::Letter { key, shift: m.shift });
        },
        None => {},
    }
    if keycode == KC_DELETE {
        return Some(KeyKind::Backspace);
    }
    if keycode == KC_SPACE {
        return Some(KeyKind::Boundary { sep: Some(' ') });
    }
    if is_boundary(keycode) {
        return Some(KeyKind::Boundary { sep: None });
    }
    Some(KeyKind::Reset)
}

} // verus!
