//! Key maps of the X11 backend: evdev codes of the tracked letter keys, the
//! word-boundary keys, and the canonical hotkey names of X keysyms.
//!
//! An X11 keycode is the evdev code plus [`X_OFFSET`].

use vstd::prelude::*;

use crate::keycode::PhysKey;
use crate::layout::en_glyph;
use crate::platform::keynames::{f_key_name, letter_key_name, letter_name};

verus! {

/// Offset from an evdev code to its X11 keycode.
pub const X_OFFSET: u8 = 8;

/// X11 keycode of Backspace (evdev 14).
pub const KC_BACKSPACE: u8 = 22;

/// X11 keycode of Space (evdev 57).
pub const KC_SPACE: u8 = 65;

/// X11 keycode of Left Shift (evdev 42).
pub const KC_SHIFT: u8 = 50;

/// X11 keycode of the key that types `A`, used to probe which XKB group is
/// English and which Russian.
pub const KC_PROBE: u8 = 38;

/// The evdev code of each tracked letter-block key.
pub open spec fn evdev_code(k: PhysKey) -> u8 {
    match k {
        PhysKey::Q => 16,
        PhysKey::W => 17,
        PhysKey::E => 18,
        PhysKey::R => 19,
        PhysKey::T => 20,
        PhysKey::Y => 21,
        PhysKey::U => 22,
        PhysKey::I => 23,
        PhysKey::O => 24,
        PhysKey::P => 25,
        PhysKey::BracketL => 26,
        PhysKey::BracketR => 27,
        PhysKey::A => 30,
        PhysKey::S => 31,
        PhysKey::D => 32,
        PhysKey::F => 33,
        PhysKey::G => 34,
        PhysKey::H => 35,
        PhysKey::J => 36,
        PhysKey::K => 37,
        PhysKey::L => 38,
        PhysKey::Semicolon => 39,
        PhysKey::Quote => 40,
        PhysKey::Z => 44,
        PhysKey::X => 45,
        PhysKey::C => 46,
        PhysKey::V => 47,
        PhysKey::B => 48,
        PhysKey::N => 49,
        PhysKey::M => 50,
        PhysKey::Comma => 51,
        PhysKey::Period => 52,
        PhysKey::Slash => 53,
        PhysKey::Backtick => 41,
    }
}

/// The tracked letter key with evdev code `code`, if any.
pub open spec fn letter_at(code: u8) -> Option<PhysKey> {
    match code {
        16 => Some(PhysKey::Q),
        17 => Some(PhysKey::W),
        18 => Some(PhysKey::E),
        19 => Some(PhysKey::R),
        20 => Some(PhysKey::T),
        21 => Some(PhysKey::Y),
        22 => Some(PhysKey::U),
        23 => Some(PhysKey::I),
        24 => Some(PhysKey::O),
        25 => Some(PhysKey::P),
        26 => Some(PhysKey::BracketL),
        27 => Some(PhysKey::BracketR),
        30 => Some(PhysKey::A),
        31 => Some(PhysKey::S),
        32 => Some(PhysKey::D),
        33 => Some(PhysKey::F),
        34 => Some(PhysKey::G),
        35 => Some(PhysKey::H),
        36 => Some(PhysKey::J),
        37 => Some(PhysKey::K),
        38 => Some(PhysKey::L),
        39 => Some(PhysKey::Semicolon),
        40 => Some(PhysKey::Quote),
        41 => Some(PhysKey::Backtick),
        44 => Some(PhysKey::Z),
        45 => Some(PhysKey::X),
        46 => Some(PhysKey::C),
        47 => Some(PhysKey::V),
        48 => Some(PhysKey::B),
        49 => Some(PhysKey::N),
        50 => Some(PhysKey::M),
        51 => Some(PhysKey::Comma),
        52 => Some(PhysKey::Period),
        53 => Some(PhysKey::Slash),
        _ => None,
    }
}

/// Whether the key with evdev code `code` ends a word: Space, Enter, Tab, the
/// digit row, minus and equals.
pub open spec fn boundary_code(code: u8) -> bool {
    code == 57 || code == 28 || code == 15 || (2 <= code && code <= 13)
}

/// The tracked letter key of an X11 keycode.
pub open spec fn phys_at(x_keycode: u8) -> Option<PhysKey> {
    if x_keycode < X_OFFSET {
        None
    } else {
        letter_at((x_keycode - X_OFFSET) as u8)
    }
}

fn letter_of_code(code: u8) -> (r: Option<PhysKey>)
    ensures
        r == letter_at(code),
{
    match code {
        16 => Some(PhysKey::Q),
        17 => Some(PhysKey::W),
        18 => Some(PhysKey::E),
        19 => Some(PhysKey::R),
        20 => Some(PhysKey::T),
        21 => Some(PhysKey::Y),
        22 => Some(PhysKey::U),
        23 => Some(PhysKey::I),
        24 => Some(PhysKey::O),
        25 => Some(PhysKey::P),
        26 => Some(PhysKey::BracketL),
        27 => Some(PhysKey::BracketR),
        30 => Some(PhysKey::A),
        31 => Some(PhysKey::S),
        32 => Some(PhysKey::D),
        33 => Some(PhysKey::F),
        34 => Some(PhysKey::G),
        35 => Some(PhysKey::H),
        36 => Some(PhysKey::J),
        37 => Some(PhysKey::K),
        38 => Some(PhysKey::L),
        39 => Some(PhysKey::Semicolon),
        40 => Some(PhysKey::Quote),
        41 => Some(PhysKey::Backtick),
        44 => Some(PhysKey::Z),
        45 => Some(PhysKey::X),
        46 => Some(PhysKey::C),
        47 => Some(PhysKey::V),
        48 => Some(PhysKey::B),
        49 => Some(PhysKey::N),
        50 => Some(PhysKey::M),
        51 => Some(PhysKey::Comma),
        52 => Some(PhysKey::Period),
        53 => Some(PhysKey::Slash),
        _ => None,
    }
}

fn code_of_letter(k: PhysKey) -> (r: u8)
    ensures
        r == evdev_code(k),
{
    match k {
        PhysKey::Q => 16,
        PhysKey::W => 17,
        PhysKey::E => 18,
        PhysKey::R => 19,
        PhysKey::T => 20,
        PhysKey::Y => 21,
        PhysKey::U => 22,
        PhysKey::I => 23,
        PhysKey::O => 24,
        PhysKey::P => 25,
        PhysKey::BracketL => 26,
        PhysKey::BracketR => 27,
        PhysKey::A => 30,
        PhysKey::S => 31,
        PhysKey::D => 32,
        PhysKey::F => 33,
        PhysKey::G => 34,
        PhysKey::H => 35,
        PhysKey::J => 36,
        PhysKey::K => 37,
        PhysKey::L => 38,
        PhysKey::Semicolon => 39,
        PhysKey::Quote => 40,
        PhysKey::Z => 44,
        PhysKey::X => 45,
        PhysKey::C => 46,
        PhysKey::V => 47,
        PhysKey::B => 48,
        PhysKey::N => 49,
        PhysKey::M => 50,
        PhysKey::Comma => 51,
        PhysKey::Period => 52,
        PhysKey::Slash => 53,
        PhysKey::Backtick => 41,
    }
}

/// Map an X11 keycode to a tracked letter key, if any.
pub fn phys_of(x_keycode: u8) -> (r: Option<PhysKey>)
    ensures
        r == phys_at(x_keycode),
{
    if x_keycode < X_OFFSET {
        None
    } else {
        letter_of_code(x_keycode - X_OFFSET)
    }
}

/// The X11 keycode of a tracked letter key.
pub fn keycode_of(key: PhysKey) -> (r: u8)
    ensures
        r == evdev_code(key) + X_OFFSET,
{
    code_of_letter(key) + X_OFFSET
}

/// Whether an X11 keycode is a word-boundary key.
pub fn is_boundary(x_keycode: u8) -> (r: bool)
    ensures
        r == (x_keycode >= X_OFFSET && boundary_code((x_keycode - X_OFFSET) as u8)),
{
    if x_keycode < X_OFFSET {
        false
    } else {
        let code = x_keycode - X_OFFSET;
        code == 57 || code == 28 || code == 15 || (2 <= code && code <= 13)
    }
}

/// Canonical hotkey name of a letter key, taken from its English glyph
/// uppercased; `None` for other keys.
pub fn key_letter_name(x_keycode: u8) -> (r: Option<String>)
    ensures
        match phys_at(x_keycode) {
            Some(k) => match r {
                Some(s) => letter_key_name(k) == Some(s@),
                None => letter_key_name(k) is None,
            },
            None => r is None,
        },
{
    match phys_of(x_keycode) {
        Some(k) => letter_name(k),
        None => None,
    }
}

/// Whether an X keysym is a modifier (Shift, Control, Alt, Super, Caps Lock,
/// AltGr, Num Lock).
pub fn is_modifier_keysym(sym: u32) -> (r: bool)
    ensures
        r == ((0xffe1 <= sym && sym <= 0xffee) || sym == 0xfe03 || sym == 0xff7f),
{
    (0xffe1 <= sym && sym <= 0xffee) || sym == 0xfe03 || sym == 0xff7f
}

/// Canonical hotkey name of a named (non-letter) X keysym.
pub open spec fn keysym_name(sym: u32) -> Option<Seq<char>> {
    if sym == 0xff13 || sym == 0xff6b {
        Some(seq!['P', 'A', 'U', 'S', 'E'])
    }     else if sym == 0xff14 {
        Some(seq!['S', 'C', 'R', 'O', 'L', 'L', 'L', 'O', 'C', 'K'])
    }     else if sym == 0xff63 {
        Some(seq!['I', 'N', 'S', 'E', 'R', 'T'])
    }     else if sym == 0xff50 {
        Some(seq!['H', 'O', 'M', 'E'])
    }     else if sym == 0xff57 {
        Some(seq!['E', 'N', 'D'])
    }     else if sym == 0xff55 {
        Some(seq!['P', 'A', 'G', 'E', 'U', 'P'])
    }     else if sym == 0xff56 {
        Some(seq!['P', 'A', 'G', 'E', 'D', 'O', 'W', 'N'])
    }     else if sym == 0xff67 {
        Some(seq!['M', 'E', 'N', 'U'])
    }     else if sym == 0xffe5 {
        Some(seq!['C', 'A', 'P', 'S', 'L', 'O', 'C', 'K'])
    }     else if sym == 0x0020 {
        Some(seq!['S', 'P', 'A', 'C', 'E'])
    } else if 0xffbe <= sym && sym <= 0xffc9 {
        f_key_name((sym - 0xffbe + 1) as u32)
    } else if 0xffca <= sym && sym <= 0xffe0 {
        f_key_name((sym - 0xffca + 13) as u32)
    } else {
        None
    }
}

/// Canonical hotkey name of a named (non-letter) X keysym, if recognized.
pub fn named_keysym(sym: u32) -> (r: Option<&'static str>)
    ensures
        match r {
            Some(s) => keysym_name(sym) == Some(s@),
            None => keysym_name(sym) is None,
        },
{
    if sym == 0xff13 || sym == 0xff6b {
        proof {
            reveal_strlit("PAUSE");
        }
        Some("PAUSE")
    }     else if sym == 0xff14 {
        proof {
            reveal_strlit("SCROLLLOCK");
        }
        Some("SCROLLLOCK")
    }     else if sym == 0xff63 {
        proof {
            reveal_strlit("INSERT");
        }
        Some("INSERT")
    }     else if sym == 0xff50 {
        proof {
            reveal_strlit("HOME");
        }
        Some("HOME")
    }     else if sym == 0xff57 {
        proof {
            reveal_strlit("END");
        }
        Some("END")
    }     else if sym == 0xff55 {
        proof {
            reveal_strlit("PAGEUP");
        }
        Some("PAGEUP")
    }     else if sym == 0xff56 {
        proof {
            reveal_strlit("PAGEDOWN");
        }
        Some("PAGEDOWN")
    }     else if sym == 0xff67 {
        proof {
            reveal_strlit("MENU");
        }
        Some("MENU")
    }     else if sym == 0xffe5 {
        proof {
            reveal_strlit("CAPSLOCK");
        }
        Some("CAPSLOCK")
    }     else if sym == 0x0020 {
        proof {
            reveal_strlit("SPACE");
        }
        Some("SPACE")
    } else if 0xffbe <= sym && sym <= 0xffc9 {
        crate::platform::keynames::f_name(sym - 0xffbe + 1)
    } else if 0xffca <= sym && sym <= 0xffe0 {
        crate::platform::keynames::f_name(sym - 0xffca + 13)
    } else {
        None
    }
}

/// Each tracked letter key has exactly one evdev code: reading the code of a
/// key back gives the key, and a code that reads as a key is that key's code.
pub proof fn law_x11_keycode_round_trip(k: PhysKey, x_keycode: u8)
    ensures
        phys_at((evdev_code(k) + X_OFFSET) as u8) == Some(k),
        phys_at(x_keycode) == Some(k) ==> x_keycode == evdev_code(k) + X_OFFSET,
{
}

/// No key is both a tracked letter and a word boundary.
pub proof fn law_x11_letters_are_not_boundaries(code: u8)
    ensures
        letter_at(code) is Some ==> !boundary_code(code),
{
}

/// The evdev codes of `keys`, key by key.
pub open spec fn codes_of(keys: Seq<PhysKey>) -> Seq<u8> {
    keys.map_values(|k: PhysKey| evdev_code(k))
}

/// The tracked keys at the X11 keycodes `first ..< first + n`.
pub open spec fn keys_at(first: int, n: nat) -> Seq<Option<PhysKey>> {
    Seq::new(n, |i: int| phys_at((first + i) as u8))
}

/// The codes are the standard evdev ones: each letter row of the keyboard
/// is numbered left to right from 16 (`Q`), 30 (`A`) and 44 (`Z`), and the
/// key left of `1` is 41; its X11 keycode is 8 more. Reading the keycodes
/// of a row back gives the row.
pub proof fn law_standard_evdev_codes()
    ensures
        codes_of(seq![PhysKey::Q, PhysKey::W, PhysKey::E, PhysKey::R, PhysKey::T, PhysKey::Y, PhysKey::U, PhysKey::I, PhysKey::O, PhysKey::P, PhysKey::BracketL, PhysKey::BracketR]) == seq![16u8, 17u8, 18u8, 19u8, 20u8, 21u8, 22u8, 23u8, 24u8, 25u8, 26u8, 27u8],
        codes_of(seq![PhysKey::A, PhysKey::S, PhysKey::D, PhysKey::F, PhysKey::G, PhysKey::H, PhysKey::J, PhysKey::K, PhysKey::L, PhysKey::Semicolon, PhysKey::Quote]) == seq![30u8, 31u8, 32u8, 33u8, 34u8, 35u8, 36u8, 37u8, 38u8, 39u8, 40u8],
        codes_of(seq![PhysKey::Z, PhysKey::X, PhysKey::C, PhysKey::V, PhysKey::B, PhysKey::N, PhysKey::M, PhysKey::Comma, PhysKey::Period, PhysKey::Slash]) == seq![44u8, 45u8, 46u8, 47u8, 48u8, 49u8, 50u8, 51u8, 52u8, 53u8],
        evdev_code(PhysKey::Backtick) == 41,
        keys_at(24, 12) == seq![Some(PhysKey::Q), Some(PhysKey::W), Some(PhysKey::E), Some(PhysKey::R), Some(PhysKey::T), Some(PhysKey::Y), Some(PhysKey::U), Some(PhysKey::I), Some(PhysKey::O), Some(PhysKey::P), Some(PhysKey::BracketL), Some(PhysKey::BracketR)],
        keys_at(38, 11) == seq![Some(PhysKey::A), Some(PhysKey::S), Some(PhysKey::D), Some(PhysKey::F), Some(PhysKey::G), Some(PhysKey::H), Some(PhysKey::J), Some(PhysKey::K), Some(PhysKey::L), Some(PhysKey::Semicolon), Some(PhysKey::Quote)],
        keys_at(52, 10) == seq![Some(PhysKey::Z), Some(PhysKey::X), Some(PhysKey::C), Some(PhysKey::V), Some(PhysKey::B), Some(PhysKey::N), Some(PhysKey::M), Some(PhysKey::Comma), Some(PhysKey::Period), Some(PhysKey::Slash)],
        phys_at(49) == Some(PhysKey::Backtick),
{
    assert(codes_of(seq![PhysKey::Q, PhysKey::W, PhysKey::E, PhysKey::R, PhysKey::T, PhysKey::Y, PhysKey::U, PhysKey::I, PhysKey::O, PhysKey::P, PhysKey::BracketL, PhysKey::BracketR]) =~= seq![16u8, 17u8, 18u8, 19u8, 20u8, 21u8, 22u8, 23u8, 24u8, 25u8, 26u8, 27u8]);
    assert(codes_of(seq![PhysKey::A, PhysKey::S, PhysKey::D, PhysKey::F, PhysKey::G, PhysKey::H, PhysKey::J, PhysKey::K, PhysKey::L, PhysKey::Semicolon, PhysKey::Quote]) =~= seq![30u8, 31u8, 32u8, 33u8, 34u8, 35u8, 36u8, 37u8, 38u8, 39u8, 40u8]);
    assert(codes_of(seq![PhysKey::Z, PhysKey::X, PhysKey::C, PhysKey::V, PhysKey::B, PhysKey::N, PhysKey::M, PhysKey::Comma, PhysKey::Period, PhysKey::Slash]) =~= seq![44u8, 45u8, 46u8, 47u8, 48u8, 49u8, 50u8, 51u8, 52u8, 53u8]);
    assert(keys_at(24, 12) =~= seq![Some(PhysKey::Q), Some(PhysKey::W), Some(PhysKey::E), Some(PhysKey::R), Some(PhysKey::T), Some(PhysKey::Y), Some(PhysKey::U), Some(PhysKey::I), Some(PhysKey::O), Some(PhysKey::P), Some(PhysKey::BracketL), Some(PhysKey::BracketR)]);
    assert(keys_at(38, 11) =~= seq![Some(PhysKey::A), Some(PhysKey::S), Some(PhysKey::D), Some(PhysKey::F), Some(PhysKey::G), Some(PhysKey::H), Some(PhysKey::J), Some(PhysKey::K), Some(PhysKey::L), Some(PhysKey::Semicolon), Some(PhysKey::Quote)]);
    assert(keys_at(52, 10) =~= seq![Some(PhysKey::Z), Some(PhysKey::X), Some(PhysKey::C), Some(PhysKey::V), Some(PhysKey::B), Some(PhysKey::N), Some(PhysKey::M), Some(PhysKey::Comma), Some(PhysKey::Period), Some(PhysKey::Slash)]);
}

} // verus!
