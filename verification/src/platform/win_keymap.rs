//! Key maps of the Windows backend: PS/2 set-1 scan codes of the tracked
//! keys (layout-independent) and hotkey names to virtual-key codes.

use vstd::prelude::*;

use crate::keycode::PhysKey;
use crate::text::{ascii_alpha, ascii_upper, chars_eq, chars_of, is_ascii_alpha, to_ascii_upper};

verus! {

/// Scan code of Backspace.
pub const SC_BACKSPACE: u32 = 0x0E;

/// Scan code of Space.
pub const SC_SPACE: u32 = 0x39;

/// The scan code of each tracked letter-block key.
pub open spec fn scan_code(k: PhysKey) -> u32 {
    match k {
        PhysKey::Q => 0x10,
        PhysKey::W => 0x11,
        PhysKey::E => 0x12,
        PhysKey::R => 0x13,
        PhysKey::T => 0x14,
        PhysKey::Y => 0x15,
        PhysKey::U => 0x16,
        PhysKey::I => 0x17,
        PhysKey::O => 0x18,
        PhysKey::P => 0x19,
        PhysKey::BracketL => 0x1A,
        PhysKey::BracketR => 0x1B,
        PhysKey::A => 0x1E,
        PhysKey::S => 0x1F,
        PhysKey::D => 0x20,
        PhysKey::F => 0x21,
        PhysKey::G => 0x22,
        PhysKey::H => 0x23,
        PhysKey::J => 0x24,
        PhysKey::K => 0x25,
        PhysKey::L => 0x26,
        PhysKey::Semicolon => 0x27,
        PhysKey::Quote => 0x28,
        PhysKey::Backtick => 0x29,
        PhysKey::Z => 0x2C,
        PhysKey::X => 0x2D,
        PhysKey::C => 0x2E,
        PhysKey::V => 0x2F,
        PhysKey::B => 0x30,
        PhysKey::N => 0x31,
        PhysKey::M => 0x32,
        PhysKey::Comma => 0x33,
        PhysKey::Period => 0x34,
        PhysKey::Slash => 0x35,
    }
}

/// The tracked letter key at a scan code, if any.
pub open spec fn scan_letter(scan: u32) -> Option<PhysKey> {
    match scan {
        0x10 => Some(PhysKey::Q),
        0x11 => Some(PhysKey::W),
        0x12 => Some(PhysKey::E),
        0x13 => Some(PhysKey::R),
        0x14 => Some(PhysKey::T),
        0x15 => Some(PhysKey::Y),
        0x16 => Some(PhysKey::U),
        0x17 => Some(PhysKey::I),
        0x18 => Some(PhysKey::O),
        0x19 => Some(PhysKey::P),
        0x1A => Some(PhysKey::BracketL),
        0x1B => Some(PhysKey::BracketR),
        0x1E => Some(PhysKey::A),
        0x1F => Some(PhysKey::S),
        0x20 => Some(PhysKey::D),
        0x21 => Some(PhysKey::F),
        0x22 => Some(PhysKey::G),
        0x23 => Some(PhysKey::H),
        0x24 => Some(PhysKey::J),
        0x25 => Some(PhysKey::K),
        0x26 => Some(PhysKey::L),
        0x27 => Some(PhysKey::Semicolon),
        0x28 => Some(PhysKey::Quote),
        0x29 => Some(PhysKey::Backtick),
        0x2C => Some(PhysKey::Z),
        0x2D => Some(PhysKey::X),
        0x2E => Some(PhysKey::C),
        0x2F => Some(PhysKey::V),
        0x30 => Some(PhysKey::B),
        0x31 => Some(PhysKey::N),
        0x32 => Some(PhysKey::M),
        0x33 => Some(PhysKey::Comma),
        0x34 => Some(PhysKey::Period),
        0x35 => Some(PhysKey::Slash),
        _ => None,
    }
}

/// Whether a scan code ends a word: Space, Enter, Tab, the digit row, minus
/// and equals.
pub open spec fn scan_boundary(scan: u32) -> bool {
    scan == 0x39 || scan == 0x1C || scan == 0x0F || (0x02 <= scan && scan <= 0x0D)
}

/// The scan code of a tracked key.
pub fn scan_code_of(k: PhysKey) -> (r: u32)
    ensures
        r == scan_code(k),
{
    match k {
        PhysKey::Q => 0x10,
        PhysKey::W => 0x11,
        PhysKey::E => 0x12,
        PhysKey::R => 0x13,
        PhysKey::T => 0x14,
        PhysKey::Y => 0x15,
        PhysKey::U => 0x16,
        PhysKey::I => 0x17,
        PhysKey::O => 0x18,
        PhysKey::P => 0x19,
        PhysKey::BracketL => 0x1A,
        PhysKey::BracketR => 0x1B,
        PhysKey::A => 0x1E,
        PhysKey::S => 0x1F,
        PhysKey::D => 0x20,
        PhysKey::F => 0x21,
        PhysKey::G => 0x22,
        PhysKey::H => 0x23,
        PhysKey::J => 0x24,
        PhysKey::K => 0x25,
        PhysKey::L => 0x26,
        PhysKey::Semicolon => 0x27,
        PhysKey::Quote => 0x28,
        PhysKey::Backtick => 0x29,
        PhysKey::Z => 0x2C,
        PhysKey::X => 0x2D,
        PhysKey::C => 0x2E,
        PhysKey::V => 0x2F,
        PhysKey::B => 0x30,
        PhysKey::N => 0x31,
        PhysKey::M => 0x32,
        PhysKey::Comma => 0x33,
        PhysKey::Period => 0x34,
        PhysKey::Slash => 0x35,
    }
}

/// Map a scan code to a tracked letter key, if any.
pub fn phys_of(scan: u32) -> (r: Option<PhysKey>)
    ensures
        r == scan_letter(scan),
{
    match scan {
        0x10 => Some(PhysKey::Q),
        0x11 => Some(PhysKey::W),
        0x12 => Some(PhysKey::E),
        0x13 => Some(PhysKey::R),
        0x14 => Some(PhysKey::T),
        0x15 => Some(PhysKey::Y),
        0x16 => Some(PhysKey::U),
        0x17 => Some(PhysKey::I),
        0x18 => Some(PhysKey::O),
        0x19 => Some(PhysKey::P),
        0x1A => Some(PhysKey::BracketL),
        0x1B => Some(PhysKey::BracketR),
        0x1E => Some(PhysKey::A),
        0x1F => Some(PhysKey::S),
        0x20 => Some(PhysKey::D),
        0x21 => Some(PhysKey::F),
        0x22 => Some(PhysKey::G),
        0x23 => Some(PhysKey::H),
        0x24 => Some(PhysKey::J),
        0x25 => Some(PhysKey::K),
        0x26 => Some(PhysKey::L),
        0x27 => Some(PhysKey::Semicolon),
        0x28 => Some(PhysKey::Quote),
        0x29 => Some(PhysKey::Backtick),
        0x2C => Some(PhysKey::Z),
        0x2D => Some(PhysKey::X),
        0x2E => Some(PhysKey::C),
        0x2F => Some(PhysKey::V),
        0x30 => Some(PhysKey::B),
        0x31 => Some(PhysKey::N),
        0x32 => Some(PhysKey::M),
        0x33 => Some(PhysKey::Comma),
        0x34 => Some(PhysKey::Period),
        0x35 => Some(PhysKey::Slash),
        _ => None,
    }
}

/// Whether a scan code is a word-boundary key.
pub fn is_boundary(scan: u32) -> (r: bool)
    ensures
        r == scan_boundary(scan),
{
    scan == 0x39 || scan == 0x1C || scan == 0x0F || (0x02 <= scan && scan <= 0x0D)
}

/// The Win32 virtual-key code of a canonical hotkey key name. A single ASCII
/// letter (either case) maps to its uppercase ASCII code.
pub open spec fn vk_of_name(name: Seq<char>) -> Option<u16> {
    if name == seq!['P', 'A', 'U', 'S', 'E'] {
        Some(0x13)
    }     else if name == seq!['S', 'C', 'R', 'O', 'L', 'L', 'L', 'O', 'C', 'K'] {
        Some(0x91)
    }     else if name == seq!['I', 'N', 'S', 'E', 'R', 'T'] {
        Some(0x2D)
    }     else if name == seq!['H', 'O', 'M', 'E'] {
        Some(0x24)
    }     else if name == seq!['E', 'N', 'D'] {
        Some(0x23)
    }     else if name == seq!['P', 'A', 'G', 'E', 'U', 'P'] {
        Some(0x21)
    }     else if name == seq!['P', 'A', 'G', 'E', 'D', 'O', 'W', 'N'] {
        Some(0x22)
    }     else if name == seq!['M', 'E', 'N', 'U'] {
        Some(0x5D)
    }     else if name == seq!['C', 'A', 'P', 'S', 'L', 'O', 'C', 'K'] {
        Some(0x14)
    }     else if name == seq!['S', 'P', 'A', 'C', 'E'] {
        Some(0x20)
    }     else if name == seq!['F', '1'] {
        Some(0x70)
    }     else if name == seq!['F', '2'] {
        Some(0x71)
    }     else if name == seq!['F', '3'] {
        Some(0x72)
    }     else if name == seq!['F', '4'] {
        Some(0x73)
    }     else if name == seq!['F', '5'] {
        Some(0x74)
    }     else if name == seq!['F', '6'] {
        Some(0x75)
    }     else if name == seq!['F', '7'] {
        Some(0x76)
    }     else if name == seq!['F', '8'] {
        Some(0x77)
    }     else if name == seq!['F', '9'] {
        Some(0x78)
    }     else if name == seq!['F', '1', '0'] {
        Some(0x79)
    }     else if name == seq!['F', '1', '1'] {
        Some(0x7A)
    }     else if name == seq!['F', '1', '2'] {
        Some(0x7B)
    } else if name.len() == 1 && ascii_alpha(name[0]) {
        Some(ascii_upper(name[0]) as u16)
    } else {
        None
    }
}

/// Map a canonical hotkey key name to a Win32 virtual-key code.
pub fn vk_for_name(name: &str) -> (r: Option<u16>)
    ensures
        r == vk_of_name(name@),
{
    let n = chars_of(name);
    if chars_eq(&n, &['P', 'A', 'U', 'S', 'E']) {
        Some(0x13)
    }     else if chars_eq(&n, &['S', 'C', 'R', 'O', 'L', 'L', 'L', 'O', 'C', 'K']) {
        Some(0x91)
    }     else if chars_eq(&n, &['I', 'N', 'S', 'E', 'R', 'T']) {
        Some(0x2D)
    }     else if chars_eq(&n, &['H', 'O', 'M', 'E']) {
        Some(0x24)
    }     else if chars_eq(&n, &['E', 'N', 'D']) {
        Some(0x23)
    }     else if chars_eq(&n, &['P', 'A', 'G', 'E', 'U', 'P']) {
        Some(0x21)
    }     else if chars_eq(&n, &['P', 'A', 'G', 'E', 'D', 'O', 'W', 'N']) {
        Some(0x22)
    }     else if chars_eq(&n, &['M', 'E', 'N', 'U']) {
        Some(0x5D)
    }     else if chars_eq(&n, &['C', 'A', 'P', 'S', 'L', 'O', 'C', 'K']) {
        Some(0x14)
    }     else if chars_eq(&n, &['S', 'P', 'A', 'C', 'E']) {
        Some(0x20)
    }     else if chars_eq(&n, &['F', '1']) {
        Some(0x70)
    }     else if chars_eq(&n, &['F', '2']) {
        Some(0x71)
    }     else if chars_eq(&n, &['F', '3']) {
        Some(0x72)
    }     else if chars_eq(&n, &['F', '4']) {
        Some(0x73)
    }     else if chars_eq(&n, &['F', '5']) {
        Some(0x74)
    }     else if chars_eq(&n, &['F', '6']) {
        Some(0x75)
    }     else if chars_eq(&n, &['F', '7']) {
        Some(0x76)
    }     else if chars_eq(&n, &['F', '8']) {
        Some(0x77)
    }     else if chars_eq(&n, &['F', '9']) {
        Some(0x78)
    }     else if chars_eq(&n, &['F', '1', '0']) {
        Some(0x79)
    }     else if chars_eq(&n, &['F', '1', '1']) {
        Some(0x7A)
    }     else if chars_eq(&n, &['F', '1', '2']) {
        Some(0x7B)
    } else if n.len() == 1 && is_ascii_alpha(n[0]) {
        Some(to_ascii_upper(n[0]) as u16)
    } else {
        None
    }
}

/// Each tracked letter key has exactly one scan code.
pub proof fn law_win_scan_round_trip(k: PhysKey, scan: u32)
    ensures
        scan_letter(scan_code(k)) == Some(k),
        scan_letter(scan) == Some(k) ==> scan == scan_code(k),
{
}

/// No key is both a tracked letter and a word boundary.
pub proof fn law_win_letters_are_not_boundaries(scan: u32)
    ensures
        scan_letter(scan) is Some ==> !scan_boundary(scan),
{
}

/// The scan codes of `keys`, key by key.
pub open spec fn scan_codes(keys: Seq<PhysKey>) -> Seq<u32> {
    keys.map_values(|k: PhysKey| scan_code(k))
}

/// The tracked keys at the scan codes `codes`, code by code.
pub open spec fn letters_at(codes: Seq<u32>) -> Seq<Option<PhysKey>> {
    codes.map_values(|c: u32| scan_letter(c))
}

/// The scan codes are the standard set-1 codes: each letter row of the
/// keyboard is numbered left to right from 0x10 (`Q`), 0x1E (`A`) and
/// 0x2C (`Z`), and the key left of `1` is 0x29. Reading the codes of a row
/// back gives the row.
pub proof fn law_standard_scan_codes()
    ensures
        scan_codes(seq![PhysKey::Q, PhysKey::W, PhysKey::E, PhysKey::R, PhysKey::T, PhysKey::Y, PhysKey::U, PhysKey::I, PhysKey::O, PhysKey::P, PhysKey::BracketL, PhysKey::BracketR]) == seq![0x10u32, 0x11u32, 0x12u32, 0x13u32, 0x14u32, 0x15u32, 0x16u32, 0x17u32, 0x18u32, 0x19u32, 0x1Au32, 0x1Bu32],
        scan_codes(seq![PhysKey::A, PhysKey::S, PhysKey::D, PhysKey::F, PhysKey::G, PhysKey::H, PhysKey::J, PhysKey::K, PhysKey::L, PhysKey::Semicolon, PhysKey::Quote]) == seq![0x1Eu32, 0x1Fu32, 0x20u32, 0x21u32, 0x22u32, 0x23u32, 0x24u32, 0x25u32, 0x26u32, 0x27u32, 0x28u32],
        scan_codes(seq![PhysKey::Z, PhysKey::X, PhysKey::C, PhysKey::V, PhysKey::B, PhysKey::N, PhysKey::M, PhysKey::Comma, PhysKey::Period, PhysKey::Slash]) == seq![0x2Cu32, 0x2Du32, 0x2Eu32, 0x2Fu32, 0x30u32, 0x31u32, 0x32u32, 0x33u32, 0x34u32, 0x35u32],
        scan_code(PhysKey::Backtick) == 0x29,
        letters_at(seq![0x10u32, 0x11u32, 0x12u32, 0x13u32, 0x14u32, 0x15u32, 0x16u32, 0x17u32, 0x18u32, 0x19u32, 0x1Au32, 0x1Bu32]) == seq![Some(PhysKey::Q), Some(PhysKey::W), Some(PhysKey::E), Some(PhysKey::R), Some(PhysKey::T), Some(PhysKey::Y), Some(PhysKey::U), Some(PhysKey::I), Some(PhysKey::O), Some(PhysKey::P), Some(PhysKey::BracketL), Some(PhysKey::BracketR)],
        letters_at(seq![0x1Eu32, 0x1Fu32, 0x20u32, 0x21u32, 0x22u32, 0x23u32, 0x24u32, 0x25u32, 0x26u32, 0x27u32, 0x28u32]) == seq![Some(PhysKey::A), Some(PhysKey::S), Some(PhysKey::D), Some(PhysKey::F), Some(PhysKey::G), Some(PhysKey::H), Some(PhysKey::J), Some(PhysKey::K), Some(PhysKey::L), Some(PhysKey::Semicolon), Some(PhysKey::Quote)],
        letters_at(seq![0x2Cu32, 0x2Du32, 0x2Eu32, 0x2Fu32, 0x30u32, 0x31u32, 0x32u32, 0x33u32, 0x34u32, 0x35u32]) == seq![Some(PhysKey::Z), Some(PhysKey::X), Some(PhysKey::C), Some(PhysKey::V), Some(PhysKey::B), Some(PhysKey::N), Some(PhysKey::M), Some(PhysKey::Comma), Some(PhysKey::Period), Some(PhysKey::Slash)],
        scan_letter(0x29) == Some(PhysKey::Backtick),
{
    assert(scan_codes(seq![PhysKey::Q, PhysKey::W, PhysKey::E, PhysKey::R, PhysKey::T, PhysKey::Y, PhysKey::U, PhysKey::I, PhysKey::O, PhysKey::P, PhysKey::BracketL, PhysKey::BracketR]) =~= seq![0x10u32, 0x11u32, 0x12u32, 0x13u32, 0x14u32, 0x15u32, 0x16u32, 0x17u32, 0x18u32, 0x19u32, 0x1Au32, 0x1Bu32]);
    assert(scan_codes(seq![PhysKey::A, PhysKey::S, PhysKey::D, PhysKey::F, PhysKey::G, PhysKey::H, PhysKey::J, PhysKey::K, PhysKey::L, PhysKey::Semicolon, PhysKey::Quote]) =~= seq![0x1Eu32, 0x1Fu32, 0x20u32, 0x21u32, 0x22u32, 0x23u32, 0x24u32, 0x25u32, 0x26u32, 0x27u32, 0x28u32]);
    assert(scan_codes(seq![PhysKey::Z, PhysKey::X, PhysKey::C, PhysKey::V, PhysKey::B, PhysKey::N, PhysKey::M, PhysKey::Comma, PhysKey::Period, PhysKey::Slash]) =~= seq![0x2Cu32, 0x2Du32, 0x2Eu32, 0x2Fu32, 0x30u32, 0x31u32, 0x32u32, 0x33u32, 0x34u32, 0x35u32]);
    assert(letters_at(seq![0x10u32, 0x11u32, 0x12u32, 0x13u32, 0x14u32, 0x15u32, 0x16u32, 0x17u32, 0x18u32, 0x19u32, 0x1Au32, 0x1Bu32]) =~= seq![Some(PhysKey::Q), Some(PhysKey::W), Some(PhysKey::E), Some(PhysKey::R), Some(PhysKey::T), Some(PhysKey::Y), Some(PhysKey::U), Some(PhysKey::I), Some(PhysKey::O), Some(PhysKey::P), Some(PhysKey::BracketL), Some(PhysKey::BracketR)]);
    assert(letters_at(seq![0x1Eu32, 0x1Fu32, 0x20u32, 0x21u32, 0x22u32, 0x23u32, 0x24u32, 0x25u32, 0x26u32, 0x27u32, 0x28u32]) =~= seq![Some(PhysKey::A), Some(PhysKey::S), Some(PhysKey::D), Some(PhysKey::F), Some(PhysKey::G), Some(PhysKey::H), Some(PhysKey::J), Some(PhysKey::K), Some(PhysKey::L), Some(PhysKey::Semicolon), Some(PhysKey::Quote)]);
    assert(letters_at(seq![0x2Cu32, 0x2Du32, 0x2Eu32, 0x2Fu32, 0x30u32, 0x31u32, 0x32u32, 0x33u32, 0x34u32, 0x35u32]) =~= seq![Some(PhysKey::Z), Some(PhysKey::X), Some(PhysKey::C), Some(PhysKey::V), Some(PhysKey::B), Some(PhysKey::N), Some(PhysKey::M), Some(PhysKey::Comma), Some(PhysKey::Period), Some(PhysKey::Slash)]);
}

} // verus!
