//! Key maps of the macOS backend. macOS virtual keycodes are hardware
//! positions, so they do not depend on the active layout.

use vstd::prelude::*;

use crate::keycode::PhysKey;
use crate::platform::keynames::{letter_key_name, letter_name};

verus! {

/// Keycode of Delete (Backspace).
pub const KC_DELETE: u16 = 0x33;

/// Keycode of Space.
pub const KC_SPACE: u16 = 0x31;

/// The macOS keycode of each tracked letter-block key.
pub open spec fn mac_code(k: PhysKey) -> u16 {
    match k {
        PhysKey::Q => 0x0C,
        PhysKey::W => 0x0D,
        PhysKey::E => 0x0E,
        PhysKey::R => 0x0F,
        PhysKey::T => 0x11,
        PhysKey::Y => 0x10,
        PhysKey::U => 0x20,
        PhysKey::I => 0x22,
        PhysKey::O => 0x1F,
        PhysKey::P => 0x23,
        PhysKey::BracketL => 0x21,
        PhysKey::BracketR => 0x1E,
        PhysKey::A => 0x00,
        PhysKey::S => 0x01,
        PhysKey::D => 0x02,
        PhysKey::F => 0x03,
        PhysKey::G => 0x05,
        PhysKey::H => 0x04,
        PhysKey::J => 0x26,
        PhysKey::K => 0x28,
        PhysKey::L => 0x25,
        PhysKey::Semicolon => 0x29,
        PhysKey::Quote => 0x27,
        PhysKey::Backtick => 0x32,
        PhysKey::Z => 0x06,
        PhysKey::X => 0x07,
        PhysKey::C => 0x08,
        PhysKey::V => 0x09,
        PhysKey::B => 0x0B,
        PhysKey::N => 0x2D,
        PhysKey::M => 0x2E,
        PhysKey::Comma => 0x2B,
        PhysKey::Period => 0x2F,
        PhysKey::Slash => 0x2C,
    }
}

/// The tracked letter key at a macOS keycode, if any.
pub open spec fn mac_letter(keycode: u16) -> Option<PhysKey> {
    match keycode {
        0x00 => Some(PhysKey::A),
        0x01 => Some(PhysKey::S),
        0x02 => Some(PhysKey::D),
        0x03 => Some(PhysKey::F),
        0x04 => Some(PhysKey::H),
        0x05 => Some(PhysKey::G),
        0x06 => Some(PhysKey::Z),
        0x07 => Some(PhysKey::X),
        0x08 => Some(PhysKey::C),
        0x09 => Some(PhysKey::V),
        0x0B => Some(PhysKey::B),
        0x0C => Some(PhysKey::Q),
        0x0D => Some(PhysKey::W),
        0x0E => Some(PhysKey::E),
        0x0F => Some(PhysKey::R),
        0x10 => Some(PhysKey::Y),
        0x11 => Some(PhysKey::T),
        0x1E => Some(PhysKey::BracketR),
        0x1F => Some(PhysKey::O),
        0x20 => Some(PhysKey::U),
        0x21 => Some(PhysKey::BracketL),
        0x22 => Some(PhysKey::I),
        0x23 => Some(PhysKey::P),
        0x25 => Some(PhysKey::L),
        0x26 => Some(PhysKey::J),
        0x27 => Some(PhysKey::Quote),
        0x28 => Some(PhysKey::K),
        0x29 => Some(PhysKey::Semicolon),
        0x2B => Some(PhysKey::Comma),
        0x2C => Some(PhysKey::Slash),
        0x2D => Some(PhysKey::N),
        0x2E => Some(PhysKey::M),
        0x2F => Some(PhysKey::Period),
        0x32 => Some(PhysKey::Backtick),
        _ => None,
    }
}

/// Whether a macOS keycode ends a word: Space, Return, Tab, the digit row,
/// minus and equals.
pub open spec fn mac_boundary(keycode: u16) -> bool {
    keycode == 0x31 || keycode == 0x24 || keycode == 0x30 || keycode == 0x12 || keycode == 0x13 || keycode == 0x14 || keycode == 0x15 || keycode == 0x17 || keycode == 0x16 || keycode == 0x1A || keycode == 0x1C || keycode == 0x19 || keycode == 0x1D || keycode == 0x1B || keycode == 0x18
}

/// Map a macOS keycode to a tracked letter key, if any.
pub fn phys_of(keycode: u16) -> (r: Option<PhysKey>)
    ensures
        r == mac_letter(keycode),
{
    match keycode {
        0x00 => Some(PhysKey::A),
        0x01 => Some(PhysKey::S),
        0x02 => Some(PhysKey::D),
        0x03 => Some(PhysKey::F),
        0x04 => Some(PhysKey::H),
        0x05 => Some(PhysKey::G),
        0x06 => Some(PhysKey::Z),
        0x07 => Some(PhysKey::X),
        0x08 => Some(PhysKey::C),
        0x09 => Some(PhysKey::V),
        0x0B => Some(PhysKey::B),
        0x0C => Some(PhysKey::Q),
        0x0D => Some(PhysKey::W),
        0x0E => Some(PhysKey::E),
        0x0F => Some(PhysKey::R),
        0x10 => Some(PhysKey::Y),
        0x11 => Some(PhysKey::T),
        0x1E => Some(PhysKey::BracketR),
        0x1F => Some(PhysKey::O),
        0x20 => Some(PhysKey::U),
        0x21 => Some(PhysKey::BracketL),
        0x22 => Some(PhysKey::I),
        0x23 => Some(PhysKey::P),
        0x25 => Some(PhysKey::L),
        0x26 => Some(PhysKey::J),
        0x27 => Some(PhysKey::Quote),
        0x28 => Some(PhysKey::K),
        0x29 => Some(PhysKey::Semicolon),
        0x2B => Some(PhysKey::Comma),
        0x2C => Some(PhysKey::Slash),
        0x2D => Some(PhysKey::N),
        0x2E => Some(PhysKey::M),
        0x2F => Some(PhysKey::Period),
        0x32 => Some(PhysKey::Backtick),
        _ => None,
    }
}

/// Whether a macOS keycode is a word-boundary key.
pub fn is_boundary(keycode: u16) -> (r: bool)
    ensures
        r == mac_boundary(keycode),
{
    keycode == 0x31 || keycode == 0x24 || keycode == 0x30 || keycode == 0x12 || keycode == 0x13 || keycode == 0x14 || keycode == 0x15 || keycode == 0x17 || keycode == 0x16 || keycode == 0x1A || keycode == 0x1C || keycode == 0x19 || keycode == 0x1D || keycode == 0x1B || keycode == 0x18
}

/// Canonical hotkey name of a letter key, from its keycode.
pub fn key_letter_name(keycode: u16) -> (r: Option<String>)
    ensures
        match mac_letter(keycode) {
            Some(k) => match r {
                Some(s) => letter_key_name(k) == Some(s@),
                None => letter_key_name(k) is None,
            },
            None => r is None,
        },
{
    match phys_of(keycode) {
        Some(k) => letter_name(k),
        None => None,
    }
}

/// Canonical hotkey name of a named (non-letter) macOS keycode.
pub open spec fn mac_key_name(keycode: u16) -> Option<Seq<char>> {
    if keycode == 0x7A {
        Some(seq!['F', '1'])
    }     else if keycode == 0x78 {
        Some(seq!['F', '2'])
    }     else if keycode == 0x63 {
        Some(seq!['F', '3'])
    }     else if keycode == 0x76 {
        Some(seq!['F', '4'])
    }     else if keycode == 0x60 {
        Some(seq!['F', '5'])
    }     else if keycode == 0x61 {
        Some(seq!['F', '6'])
    }     else if keycode == 0x62 {
        Some(seq!['F', '7'])
    }     else if keycode == 0x64 {
        Some(seq!['F', '8'])
    }     else if keycode == 0x65 {
        Some(seq!['F', '9'])
    }     else if keycode == 0x6D {
        Some(seq!['F', '1', '0'])
    }     else if keycode == 0x67 {
        Some(seq!['F', '1', '1'])
    }     else if keycode == 0x6F {
        Some(seq!['F', '1', '2'])
    }     else if keycode == 0x69 {
        Some(seq!['F', '1', '3'])
    }     else if keycode == 0x6B {
        Some(seq!['F', '1', '4'])
    }     else if keycode == 0x71 {
        Some(seq!['F', '1', '5'])
    }     else if keycode == 0x31 {
        Some(seq!['S', 'P', 'A', 'C', 'E'])
    }     else if keycode == 0x73 {
        Some(seq!['H', 'O', 'M', 'E'])
    }     else if keycode == 0x77 {
        Some(seq!['E', 'N', 'D'])
    }     else if keycode == 0x74 {
        Some(seq!['P', 'A', 'G', 'E', 'U', 'P'])
    }     else if keycode == 0x79 {
        Some(seq!['P', 'A', 'G', 'E', 'D', 'O', 'W', 'N'])
    } else {
        None
    }
}

/// Canonical hotkey name of a named (non-letter) macOS keycode, if any.
pub fn named_keycode(keycode: u16) -> (r: Option<&'static str>)
    ensures
        match r {
            Some(s) => mac_key_name(keycode) == Some(s@),
            None => mac_key_name(keycode) is None,
        },
{
    if keycode == 0x7A {
        proof {
            reveal_strlit("F1");
        }
        Some("F1")
    }     else if keycode == 0x78 {
        proof {
            reveal_strlit("F2");
        }
        Some("F2")
    }     else if keycode == 0x63 {
        proof {
            reveal_strlit("F3");
        }
        Some("F3")
    }     else if keycode == 0x76 {
        proof {
            reveal_strlit("F4");
        }
        Some("F4")
    }     else if keycode == 0x60 {
        proof {
            reveal_strlit("F5");
        }
        Some("F5")
    }     else if keycode == 0x61 {
        proof {
            reveal_strlit("F6");
        }
        Some("F6")
    }     else if keycode == 0x62 {
        proof {
            reveal_strlit("F7");
        }
        Some("F7")
    }     else if keycode == 0x64 {
        proof {
            reveal_strlit("F8");
        }
        Some("F8")
    }     else if keycode == 0x65 {
        proof {
            reveal_strlit("F9");
        }
        Some("F9")
    }     else if keycode == 0x6D {
        proof {
            reveal_strlit("F10");
        }
        Some("F10")
    }     else if keycode == 0x67 {
        proof {
            reveal_strlit("F11");
        }
        Some("F11")
    }     else if keycode == 0x6F {
        proof {
            reveal_strlit("F12");
        }
        Some("F12")
    }     else if keycode == 0x69 {
        proof {
            reveal_strlit("F13");
        }
        Some("F13")
    }     else if keycode == 0x6B {
        proof {
            reveal_strlit("F14");
        }
        Some("F14")
    }     else if keycode == 0x71 {
        proof {
            reveal_strlit("F15");
        }
        Some("F15")
    }     else if keycode == 0x31 {
        proof {
            reveal_strlit("SPACE");
        }
        Some("SPACE")
    }     else if keycode == 0x73 {
        proof {
            reveal_strlit("HOME");
        }
        Some("HOME")
    }     else if keycode == 0x77 {
        proof {
            reveal_strlit("END");
        }
        Some("END")
    }     else if keycode == 0x74 {
        proof {
            reveal_strlit("PAGEUP");
        }
        Some("PAGEUP")
    }     else if keycode == 0x79 {
        proof {
            reveal_strlit("PAGEDOWN");
        }
        Some("PAGEDOWN")
    } else {
        None
    }
}

/// Each tracked letter key has exactly one macOS keycode.
pub proof fn law_mac_keycode_round_trip(k: PhysKey, keycode: u16)
    ensures
        mac_letter(mac_code(k)) == Some(k),
        mac_letter(keycode) == Some(k) ==> keycode == mac_code(k),
{
}

/// No key is both a tracked letter and a word boundary.
pub proof fn law_mac_letters_are_not_boundaries(keycode: u16)
    ensures
        mac_letter(keycode) is Some ==> !mac_boundary(keycode),
{
}

/// The virtual keycodes of `keys`, key by key.
pub open spec fn mac_codes(keys: Seq<PhysKey>) -> Seq<u16> {
    keys.map_values(|k: PhysKey| mac_code(k))
}

/// The tracked keys at the virtual keycodes `codes`, code by code.
pub open spec fn mac_letters(codes: Seq<u16>) -> Seq<Option<PhysKey>> {
    codes.map_values(|c: u16| mac_letter(c))
}

/// The keycodes are the standard ANSI virtual keycodes (`kVK_ANSI_*`):
/// along each letter row, left to right, and for the key left of `1`
/// (0x32). Reading the codes of a row back gives the row.
pub proof fn law_standard_mac_keycodes()
    ensures
        mac_codes(seq![PhysKey::Q, PhysKey::W, PhysKey::E, PhysKey::R, PhysKey::T, PhysKey::Y, PhysKey::U, PhysKey::I, PhysKey::O, PhysKey::P, PhysKey::BracketL, PhysKey::BracketR]) == seq![0x0Cu16, 0x0Du16, 0x0Eu16, 0x0Fu16, 0x11u16, 0x10u16, 0x20u16, 0x22u16, 0x1Fu16, 0x23u16, 0x21u16, 0x1Eu16],
        mac_codes(seq![PhysKey::A, PhysKey::S, PhysKey::D, PhysKey::F, PhysKey::G, PhysKey::H, PhysKey::J, PhysKey::K, PhysKey::L, PhysKey::Semicolon, PhysKey::Quote]) == seq![0x00u16, 0x01u16, 0x02u16, 0x03u16, 0x05u16, 0x04u16, 0x26u16, 0x28u16, 0x25u16, 0x29u16, 0x27u16],
        mac_codes(seq![PhysKey::Z, PhysKey::X, PhysKey::C, PhysKey::V, PhysKey::B, PhysKey::N, PhysKey::M, PhysKey::Comma, PhysKey::Period, PhysKey::Slash]) == seq![0x06u16, 0x07u16, 0x08u16, 0x09u16, 0x0Bu16, 0x2Du16, 0x2Eu16, 0x2Bu16, 0x2Fu16, 0x2Cu16],
        mac_code(PhysKey::Backtick) == 0x32,
        mac_letters(seq![0x0Cu16, 0x0Du16, 0x0Eu16, 0x0Fu16, 0x11u16, 0x10u16, 0x20u16, 0x22u16, 0x1Fu16, 0x23u16, 0x21u16, 0x1Eu16]) == seq![Some(PhysKey::Q), Some(PhysKey::W), Some(PhysKey::E), Some(PhysKey::R), Some(PhysKey::T), Some(PhysKey::Y), Some(PhysKey::U), Some(PhysKey::I), Some(PhysKey::O), Some(PhysKey::P), Some(PhysKey::BracketL), Some(PhysKey::BracketR)],
        mac_letters(seq![0x00u16, 0x01u16, 0x02u16, 0x03u16, 0x05u16, 0x04u16, 0x26u16, 0x28u16, 0x25u16, 0x29u16, 0x27u16]) == seq![Some(PhysKey::A), Some(PhysKey::S), Some(PhysKey::D), Some(PhysKey::F), Some(PhysKey::G), Some(PhysKey::H), Some(PhysKey::J), Some(PhysKey::K), Some(PhysKey::L), Some(PhysKey::Semicolon), Some(PhysKey::Quote)],
        mac_letters(seq![0x06u16, 0x07u16, 0x08u16, 0x09u16, 0x0Bu16, 0x2Du16, 0x2Eu16, 0x2Bu16, 0x2Fu16, 0x2Cu16]) == seq![Some(PhysKey::Z), Some(PhysKey::X), Some(PhysKey::C), Some(PhysKey::V), Some(PhysKey::B), Some(PhysKey::N), Some(PhysKey::M), Some(PhysKey::Comma), Some(PhysKey::Period), Some(PhysKey::Slash)],
        mac_letter(0x32) == Some(PhysKey::Backtick),
{
    assert(mac_codes(seq![PhysKey::Q, PhysKey::W, PhysKey::E, PhysKey::R, PhysKey::T, PhysKey::Y, PhysKey::U, PhysKey::I, PhysKey::O, PhysKey::P, PhysKey::BracketL, PhysKey::BracketR]) =~= seq![0x0Cu16, 0x0Du16, 0x0Eu16, 0x0Fu16, 0x11u16, 0x10u16, 0x20u16, 0x22u16, 0x1Fu16, 0x23u16, 0x21u16, 0x1Eu16]);
    assert(mac_codes(seq![PhysKey::A, PhysKey::S, PhysKey::D, PhysKey::F, PhysKey::G, PhysKey::H, PhysKey::J, PhysKey::K, PhysKey::L, PhysKey::Semicolon, PhysKey::Quote]) =~= seq![0x00u16, 0x01u16, 0x02u16, 0x03u16, 0x05u16, 0x04u16, 0x26u16, 0x28u16, 0x25u16, 0x29u16, 0x27u16]);
    assert(mac_codes(seq![PhysKey::Z, PhysKey::X, PhysKey::C, PhysKey::V, PhysKey::B, PhysKey::N, PhysKey::M, PhysKey::Comma, PhysKey::Period, PhysKey::Slash]) =~= seq![0x06u16, 0x07u16, 0x08u16, 0x09u16, 0x0Bu16, 0x2Du16, 0x2Eu16, 0x2Bu16, 0x2Fu16, 0x2Cu16]);
    assert(mac_letters(seq![0x0Cu16, 0x0Du16, 0x0Eu16, 0x0Fu16, 0x11u16, 0x10u16, 0x20u16, 0x22u16, 0x1Fu16, 0x23u16, 0x21u16, 0x1Eu16]) =~= seq![Some(PhysKey::Q), Some(PhysKey::W), Some(PhysKey::E), Some(PhysKey::R), Some(PhysKey::T), Some(PhysKey::Y), Some(PhysKey::U), Some(PhysKey::I), Some(PhysKey::O), Some(PhysKey::P), Some(PhysKey::BracketL), Some(PhysKey::BracketR)]);
    assert(mac_letters(seq![0x00u16, 0x01u16, 0x02u16, 0x03u16, 0x05u16, 0x04u16, 0x26u16, 0x28u16, 0x25u16, 0x29u16, 0x27u16]) =~= seq![Some(PhysKey::A), Some(PhysKey::S), Some(PhysKey::D), Some(PhysKey::F), Some(PhysKey::G), Some(PhysKey::H), Some(PhysKey::J), Some(PhysKey::K), Some(PhysKey::L), Some(PhysKey::Semicolon), Some(PhysKey::Quote)]);
    assert(mac_letters(seq![0x06u16, 0x07u16, 0x08u16, 0x09u16, 0x0Bu16, 0x2Du16, 0x2Eu16, 0x2Bu16, 0x2Fu16, 0x2Cu16]) =~= seq![Some(PhysKey::Z), Some(PhysKey::X), Some(PhysKey::C), Some(PhysKey::V), Some(PhysKey::B), Some(PhysKey::N), Some(PhysKey::M), Some(PhysKey::Comma), Some(PhysKey::Period), Some(PhysKey::Slash)]);
}

} // verus!
