//! Physical keys relevant to RU/EN typing.
//!
//! The word buffer is keyed on *physical* keys, not characters, so that
//! conversion between layouts is independent of the OS-reported keysym.
//! Each backend maps its native scancode/keycode into a [`PhysKey`].

use vstd::prelude::*;

verus! {

/// A physical key on the main alphanumeric block, named by its US-QWERTY glyph.
///
/// The 34 keys here are exactly the ones that produce a letter in the English
/// (US-QWERTY) *or* Russian (ЙЦУКЕН) layout. Non-letter keys (digits, space,
/// punctuation outside this set) are word boundaries and are not stored as
/// `PhysKey`.
#[derive(Clone, Copy, PartialEq, Eq, Hash, Debug, Structural)]
pub enum PhysKey {
    Q,
    W,
    E,
    R,
    T,
    Y,
    U,
    I,
    O,
    P,
    BracketL,
    BracketR,
    A,
    S,
    D,
    F,
    G,
    H,
    J,
    K,
    L,
    Semicolon,
    Quote,
    Z,
    X,
    C,
    V,
    B,
    N,
    M,
    Comma,
    Period,
    Slash,
    Backtick,
}

impl PhysKey {
    /// Position of the key in table order (the order of the variants).
    pub open spec fn index(self) -> int {
        match self {
            PhysKey::Q => 0,
            PhysKey::W => 1,
            PhysKey::E => 2,
            PhysKey::R => 3,
            PhysKey::T => 4,
            PhysKey::Y => 5,
            PhysKey::U => 6,
            PhysKey::I => 7,
            PhysKey::O => 8,
            PhysKey::P => 9,
            PhysKey::BracketL => 10,
            PhysKey::BracketR => 11,
            PhysKey::A => 12,
            PhysKey::S => 13,
            PhysKey::D => 14,
            PhysKey::F => 15,
            PhysKey::G => 16,
            PhysKey::H => 17,
            PhysKey::J => 18,
            PhysKey::K => 19,
            PhysKey::L => 20,
            PhysKey::Semicolon => 21,
            PhysKey::Quote => 22,
            PhysKey::Z => 23,
            PhysKey::X => 24,
            PhysKey::C => 25,
            PhysKey::V => 26,
            PhysKey::B => 27,
            PhysKey::N => 28,
            PhysKey::M => 29,
            PhysKey::Comma => 30,
            PhysKey::Period => 31,
            PhysKey::Slash => 32,
            PhysKey::Backtick => 33,
        }
    }
}

/// Number of tracked physical keys.
pub const KEY_COUNT: usize = 34;

} // verus!
