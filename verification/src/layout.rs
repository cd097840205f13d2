//! Static layout tables mapping [`PhysKey`] to characters for the
//! English (US-QWERTY) and Russian (ЙЦУКЕН) layouts.

use vstd::prelude::*;

use crate::keycode::PhysKey;
use crate::unicode::{alphabetic, char_is_alphabetic, char_lower_first, in_basic_range, lower_char};

verus! {

/// A language / layout selector.
#[derive(Clone, Copy, PartialEq, Eq, Debug, Structural)]
pub enum Lang {
    En,
    Ru,
}

impl Lang {
    /// The opposite layout, as a mathematical function.
    pub open spec fn opposite(self) -> Lang {
        match self {
            Lang::En => Lang::Ru,
            Lang::Ru => Lang::En,
        }
    }

    /// The opposite layout.
    pub fn other(self) -> (r: Lang)
        ensures
            r == self.opposite(),
    {
        match self {
            Lang::En => Lang::Ru,
            Lang::Ru => Lang::En,
        }
    }
}

/// The lowercase glyph a key produces in the English layout.
pub open spec fn en_glyph(k: PhysKey) -> char {
    match k {
        PhysKey::Q => 'q',
        PhysKey::W => 'w',
        PhysKey::E => 'e',
        PhysKey::R => 'r',
        PhysKey::T => 't',
        PhysKey::Y => 'y',
        PhysKey::U => 'u',
        PhysKey::I => 'i',
        PhysKey::O => 'o',
        PhysKey::P => 'p',
        PhysKey::BracketL => '[',
        PhysKey::BracketR => ']',
        PhysKey::A => 'a',
        PhysKey::S => 's',
        PhysKey::D => 'd',
        PhysKey::F => 'f',
        PhysKey::G => 'g',
        PhysKey::H => 'h',
        PhysKey::J => 'j',
        PhysKey::K => 'k',
        PhysKey::L => 'l',
        PhysKey::Semicolon => ';',
        PhysKey::Quote => '\'',
        PhysKey::Z => 'z',
        PhysKey::X => 'x',
        PhysKey::C => 'c',
        PhysKey::V => 'v',
        PhysKey::B => 'b',
        PhysKey::N => 'n',
        PhysKey::M => 'm',
        PhysKey::Comma => ',',
        PhysKey::Period => '.',
        PhysKey::Slash => '/',
        PhysKey::Backtick => '`',
    }
}

/// The lowercase glyph a key produces in the Russian layout (`None` for keys
/// that are punctuation there).
pub open spec fn ru_glyph(k: PhysKey) -> Option<char> {
    match k {
        PhysKey::Q => Some('й'),
        PhysKey::W => Some('ц'),
        PhysKey::E => Some('у'),
        PhysKey::R => Some('к'),
        PhysKey::T => Some('е'),
        PhysKey::Y => Some('н'),
        PhysKey::U => Some('г'),
        PhysKey::I => Some('ш'),
        PhysKey::O => Some('щ'),
        PhysKey::P => Some('з'),
        PhysKey::BracketL => Some('х'),
        PhysKey::BracketR => Some('ъ'),
        PhysKey::A => Some('ф'),
        PhysKey::S => Some('ы'),
        PhysKey::D => Some('в'),
        PhysKey::F => Some('а'),
        PhysKey::G => Some('п'),
        PhysKey::H => Some('р'),
        PhysKey::J => Some('о'),
        PhysKey::K => Some('л'),
        PhysKey::L => Some('д'),
        PhysKey::Semicolon => Some('ж'),
        PhysKey::Quote => Some('э'),
        PhysKey::Z => Some('я'),
        PhysKey::X => Some('ч'),
        PhysKey::C => Some('с'),
        PhysKey::V => Some('м'),
        PhysKey::B => Some('и'),
        PhysKey::N => Some('т'),
        PhysKey::M => Some('ь'),
        PhysKey::Comma => Some('б'),
        PhysKey::Period => Some('ю'),
        PhysKey::Slash => None,
        PhysKey::Backtick => Some('ё'),
    }
}

/// The lowercase glyph produced by `k` in `lang`, if any.
pub open spec fn glyph(k: PhysKey, lang: Lang) -> Option<char> {
    match lang {
        Lang::En => Some(en_glyph(k)),
        Lang::Ru => ru_glyph(k),
    }
}

/// The key whose English glyph is exactly `c`.
pub open spec fn en_key(c: char) -> Option<PhysKey> {
    match c {
        'q' => Some(PhysKey::Q),
        'w' => Some(PhysKey::W),
        'e' => Some(PhysKey::E),
        'r' => Some(PhysKey::R),
        't' => Some(PhysKey::T),
        'y' => Some(PhysKey::Y),
        'u' => Some(PhysKey::U),
        'i' => Some(PhysKey::I),
        'o' => Some(PhysKey::O),
        'p' => Some(PhysKey::P),
        '[' => Some(PhysKey::BracketL),
        ']' => Some(PhysKey::BracketR),
        'a' => Some(PhysKey::A),
        's' => Some(PhysKey::S),
        'd' => Some(PhysKey::D),
        'f' => Some(PhysKey::F),
        'g' => Some(PhysKey::G),
        'h' => Some(PhysKey::H),
        'j' => Some(PhysKey::J),
        'k' => Some(PhysKey::K),
        'l' => Some(PhysKey::L),
        ';' => Some(PhysKey::Semicolon),
        '\'' => Some(PhysKey::Quote),
        'z' => Some(PhysKey::Z),
        'x' => Some(PhysKey::X),
        'c' => Some(PhysKey::C),
        'v' => Some(PhysKey::V),
        'b' => Some(PhysKey::B),
        'n' => Some(PhysKey::N),
        'm' => Some(PhysKey::M),
        ',' => Some(PhysKey::Comma),
        '.' => Some(PhysKey::Period),
        '/' => Some(PhysKey::Slash),
        '`' => Some(PhysKey::Backtick),
        _ => None,
    }
}

/// The key whose Russian glyph is exactly `c`.
pub open spec fn ru_key(c: char) -> Option<PhysKey> {
    match c {
        'й' => Some(PhysKey::Q),
        'ц' => Some(PhysKey::W),
        'у' => Some(PhysKey::E),
        'к' => Some(PhysKey::R),
        'е' => Some(PhysKey::T),
        'н' => Some(PhysKey::Y),
        'г' => Some(PhysKey::U),
        'ш' => Some(PhysKey::I),
        'щ' => Some(PhysKey::O),
        'з' => Some(PhysKey::P),
        'х' => Some(PhysKey::BracketL),
        'ъ' => Some(PhysKey::BracketR),
        'ф' => Some(PhysKey::A),
        'ы' => Some(PhysKey::S),
        'в' => Some(PhysKey::D),
        'а' => Some(PhysKey::F),
        'п' => Some(PhysKey::G),
        'р' => Some(PhysKey::H),
        'о' => Some(PhysKey::J),
        'л' => Some(PhysKey::K),
        'д' => Some(PhysKey::L),
        'ж' => Some(PhysKey::Semicolon),
        'э' => Some(PhysKey::Quote),
        'я' => Some(PhysKey::Z),
        'ч' => Some(PhysKey::X),
        'с' => Some(PhysKey::C),
        'м' => Some(PhysKey::V),
        'и' => Some(PhysKey::B),
        'т' => Some(PhysKey::N),
        'ь' => Some(PhysKey::M),
        'б' => Some(PhysKey::Comma),
        'ю' => Some(PhysKey::Period),
        'ё' => Some(PhysKey::Backtick),
        _ => None,
    }
}

/// The key whose glyph in `lang` is exactly `c`.
pub open spec fn key_of_glyph(c: char, lang: Lang) -> Option<PhysKey> {
    match lang {
        Lang::En => en_key(c),
        Lang::Ru => ru_key(c),
    }
}

/// The key that produces `c` case-insensitively in `lang`.
pub open spec fn key_for_char(c: char, lang: Lang) -> Option<PhysKey> {
    key_of_glyph(lower_char(c), lang)
}

/// `c` is, case-insensitively, a letter of `lang`: some key produces it and
/// the glyph is alphabetic.
pub open spec fn letter_of(c: char, lang: Lang) -> bool {
    match key_for_char(c, lang) {
        Some(k) => match glyph(k, lang) {
            Some(g) => alphabetic(g),
            None => false,
        },
        None => false,
    }
}

/// The lowercase glyph produced by `key` in `lang`, if any.
pub fn key_to_char(key: PhysKey, lang: Lang) -> (r: Option<char>)
    ensures
        r == glyph(key, lang),
{
    match lang {
        Lang::En => Some(en_char(key)),
        Lang::Ru => ru_char(key),
    }
}

fn en_char(key: PhysKey) -> (r: char)
    ensures
        r == en_glyph(key),
{
    match key {
        PhysKey::Q => 'q',
        PhysKey::W => 'w',
        PhysKey::E => 'e',
        PhysKey::R => 'r',
        PhysKey::T => 't',
        PhysKey::Y => 'y',
        PhysKey::U => 'u',
        PhysKey::I => 'i',
        PhysKey::O => 'o',
        PhysKey::P => 'p',
        PhysKey::BracketL => '[',
        PhysKey::BracketR => ']',
        PhysKey::A => 'a',
        PhysKey::S => 's',
        PhysKey::D => 'd',
        PhysKey::F => 'f',
        PhysKey::G => 'g',
        PhysKey::H => 'h',
        PhysKey::J => 'j',
        PhysKey::K => 'k',
        PhysKey::L => 'l',
        PhysKey::Semicolon => ';',
        PhysKey::Quote => '\'',
        PhysKey::Z => 'z',
        PhysKey::X => 'x',
        PhysKey::C => 'c',
        PhysKey::V => 'v',
        PhysKey::B => 'b',
        PhysKey::N => 'n',
        PhysKey::M => 'm',
        PhysKey::Comma => ',',
        PhysKey::Period => '.',
        PhysKey::Slash => '/',
        PhysKey::Backtick => '`',
    }
}

fn ru_char(key: PhysKey) -> (r: Option<char>)
    ensures
        r == ru_glyph(key),
{
    match key {
        PhysKey::Q => Some('й'),
        PhysKey::W => Some('ц'),
        PhysKey::E => Some('у'),
        PhysKey::R => Some('к'),
        PhysKey::T => Some('е'),
        PhysKey::Y => Some('н'),
        PhysKey::U => Some('г'),
        PhysKey::I => Some('ш'),
        PhysKey::O => Some('щ'),
        PhysKey::P => Some('з'),
        PhysKey::BracketL => Some('х'),
        PhysKey::BracketR => Some('ъ'),
        PhysKey::A => Some('ф'),
        PhysKey::S => Some('ы'),
        PhysKey::D => Some('в'),
        PhysKey::F => Some('а'),
        PhysKey::G => Some('п'),
        PhysKey::H => Some('р'),
        PhysKey::J => Some('о'),
        PhysKey::K => Some('л'),
        PhysKey::L => Some('д'),
        PhysKey::Semicolon => Some('ж'),
        PhysKey::Quote => Some('э'),
        PhysKey::Z => Some('я'),
        PhysKey::X => Some('ч'),
        PhysKey::C => Some('с'),
        PhysKey::V => Some('м'),
        PhysKey::B => Some('и'),
        PhysKey::N => Some('т'),
        PhysKey::M => Some('ь'),
        PhysKey::Comma => Some('б'),
        PhysKey::Period => Some('ю'),
        PhysKey::Slash => None,
        PhysKey::Backtick => Some('ё'),
    }
}

fn en_key_of(c: char) -> (r: Option<PhysKey>)
    ensures
        r == en_key(c),
{
    match c {
        'q' => Some(PhysKey::Q),
        'w' => Some(PhysKey::W),
        'e' => Some(PhysKey::E),
        'r' => Some(PhysKey::R),
        't' => Some(PhysKey::T),
        'y' => Some(PhysKey::Y),
        'u' => Some(PhysKey::U),
        'i' => Some(PhysKey::I),
        'o' => Some(PhysKey::O),
        'p' => Some(PhysKey::P),
        '[' => Some(PhysKey::BracketL),
        ']' => Some(PhysKey::BracketR),
        'a' => Some(PhysKey::A),
        's' => Some(PhysKey::S),
        'd' => Some(PhysKey::D),
        'f' => Some(PhysKey::F),
        'g' => Some(PhysKey::G),
        'h' => Some(PhysKey::H),
        'j' => Some(PhysKey::J),
        'k' => Some(PhysKey::K),
        'l' => Some(PhysKey::L),
        ';' => Some(PhysKey::Semicolon),
        '\'' => Some(PhysKey::Quote),
        'z' => Some(PhysKey::Z),
        'x' => Some(PhysKey::X),
        'c' => Some(PhysKey::C),
        'v' => Some(PhysKey::V),
        'b' => Some(PhysKey::B),
        'n' => Some(PhysKey::N),
        'm' => Some(PhysKey::M),
        ',' => Some(PhysKey::Comma),
        '.' => Some(PhysKey::Period),
        '/' => Some(PhysKey::Slash),
        '`' => Some(PhysKey::Backtick),
        _ => None,
    }
}

fn ru_key_of(c: char) -> (r: Option<PhysKey>)
    ensures
        r == ru_key(c),
{
    match c {
        'й' => Some(PhysKey::Q),
        'ц' => Some(PhysKey::W),
        'у' => Some(PhysKey::E),
        'к' => Some(PhysKey::R),
        'е' => Some(PhysKey::T),
        'н' => Some(PhysKey::Y),
        'г' => Some(PhysKey::U),
        'ш' => Some(PhysKey::I),
        'щ' => Some(PhysKey::O),
        'з' => Some(PhysKey::P),
        'х' => Some(PhysKey::BracketL),
        'ъ' => Some(PhysKey::BracketR),
        'ф' => Some(PhysKey::A),
        'ы' => Some(PhysKey::S),
        'в' => Some(PhysKey::D),
        'а' => Some(PhysKey::F),
        'п' => Some(PhysKey::G),
        'р' => Some(PhysKey::H),
        'о' => Some(PhysKey::J),
        'л' => Some(PhysKey::K),
        'д' => Some(PhysKey::L),
        'ж' => Some(PhysKey::Semicolon),
        'э' => Some(PhysKey::Quote),
        'я' => Some(PhysKey::Z),
        'ч' => Some(PhysKey::X),
        'с' => Some(PhysKey::C),
        'м' => Some(PhysKey::V),
        'и' => Some(PhysKey::B),
        'т' => Some(PhysKey::N),
        'ь' => Some(PhysKey::M),
        'б' => Some(PhysKey::Comma),
        'ю' => Some(PhysKey::Period),
        'ё' => Some(PhysKey::Backtick),
        _ => None,
    }
}

/// The physical key that produces `c` (case-insensitively) in `lang`, if any.
pub fn char_to_key(c: char, lang: Lang) -> (r: Option<PhysKey>)
    ensures
        r == key_for_char(c, lang),
{
    let lc = to_lower(c);
    match lang {
        Lang::En => en_key_of(lc),
        Lang::Ru => ru_key_of(lc),
    }
}

/// Lowercase a single char, handling both ASCII and Cyrillic: the first char
/// of its Unicode lowercase mapping.
pub fn to_lower(c: char) -> (r: char)
    ensures
        r == lower_char(c),
{
    char_lower_first(c)
}

/// True if `c` (case-insensitively) is a letter in `lang`.
pub fn is_letter_of(c: char, lang: Lang) -> (r: bool)
    ensures
        r == letter_of(c, lang),
{
    match char_to_key(c, lang) {
        Some(k) => match key_to_char(k, lang) {
            Some(g) => char_is_alphabetic(g),
            None => false,
        },
        None => false,
    }
}

/// Switching to the other layout twice gets back to the start.
pub proof fn law_other_involutive(lang: Lang)
    ensures
        lang.opposite().opposite() == lang,
{
}

/// Within one layout the table is a bijection between keys and their glyphs:
/// a key's glyph leads back to the key, and a glyph's key produces the glyph.
pub proof fn law_glyph_key_inverse(k: PhysKey, c: char, lang: Lang)
    ensures
        glyph(k, lang) == Some(c) ==> key_of_glyph(c, lang) == Some(k),
        key_of_glyph(c, lang) == Some(k) ==> glyph(k, lang) == Some(c),
{
}

/// On ASCII and basic Cyrillic text the key lookup ignores case: a char and
/// its lowercase find the same key, and a key that is found produces the
/// lowercase char. (Outside those ranges the lookup goes through the named
/// Unicode lowercase mapping, of which nothing more is stated.)
pub proof fn law_char_to_key_ignores_case(c: char, lang: Lang)
    requires
        in_basic_range(c),
    ensures
        key_for_char(c, lang) == key_for_char(lower_char(c), lang),
        key_for_char(c, lang) matches Some(k) ==> glyph(k, lang) == Some(lower_char(c)),
        key_for_char(c, lang) is None <==> (forall|k: PhysKey| glyph(k, lang) != Some(lower_char(c))),
{
    let l = lower_char(c);
    assert(in_basic_range(l));
    assert(lower_char(l) == l);
    if key_for_char(c, lang) is None {
        assert forall|k: PhysKey| glyph(k, lang) != Some(l) by {
            law_glyph_key_inverse(k, l, lang);
        }
    } else {
        law_glyph_key_inverse(key_for_char(c, lang).unwrap(), l, lang);
    }
}

/// The glyphs `keys` produce in `lang`, key by key.
pub open spec fn glyphs(keys: Seq<PhysKey>, lang: Lang) -> Seq<Option<char>> {
    keys.map_values(|k: PhysKey| glyph(k, lang))
}

/// The layouts are the standard ones: along each letter row of the
/// keyboard, left to right, the English layout is QWERTY and the Russian
/// one is ЙЦУКЕН (`/` types no Russian letter, the key left of `1` is
/// `` ` `` and `ё`).
pub proof fn law_standard_layouts()
    ensures
        ({
            let top = seq![
                PhysKey::Q,
                PhysKey::W,
                PhysKey::E,
                PhysKey::R,
                PhysKey::T,
                PhysKey::Y,
                PhysKey::U,
                PhysKey::I,
                PhysKey::O,
                PhysKey::P,
                PhysKey::BracketL,
                PhysKey::BracketR,
            ];
            &&& glyphs(top, Lang::En) == seq![
                Some('q'),
                Some('w'),
                Some('e'),
                Some('r'),
                Some('t'),
                Some('y'),
                Some('u'),
                Some('i'),
                Some('o'),
                Some('p'),
                Some('['),
                Some(']'),
            ]
            &&& glyphs(top, Lang::Ru) == seq![
                Some('й'),
                Some('ц'),
                Some('у'),
                Some('к'),
                Some('е'),
                Some('н'),
                Some('г'),
                Some('ш'),
                Some('щ'),
                Some('з'),
                Some('х'),
                Some('ъ'),
            ]
        }),
        ({
            let home = seq![
                PhysKey::A,
                PhysKey::S,
                PhysKey::D,
                PhysKey::F,
                PhysKey::G,
                PhysKey::H,
                PhysKey::J,
                PhysKey::K,
                PhysKey::L,
                PhysKey::Semicolon,
                PhysKey::Quote,
            ];
            &&& glyphs(home, Lang::En) == seq![
                Some('a'),
                Some('s'),
                Some('d'),
                Some('f'),
                Some('g'),
                Some('h'),
                Some('j'),
                Some('k'),
                Some('l'),
                Some(';'),
                Some('\''),
            ]
            &&& glyphs(home, Lang::Ru) == seq![
                Some('ф'),
                Some('ы'),
                Some('в'),
                Some('а'),
                Some('п'),
                Some('р'),
                Some('о'),
                Some('л'),
                Some('д'),
                Some('ж'),
                Some('э'),
            ]
        }),
        ({
            let bottom = seq![
                PhysKey::Z,
                PhysKey::X,
                PhysKey::C,
                PhysKey::V,
                PhysKey::B,
                PhysKey::N,
                PhysKey::M,
                PhysKey::Comma,
                PhysKey::Period,
                PhysKey::Slash,
            ];
            &&& glyphs(bottom, Lang::En) == seq![
                Some('z'),
                Some('x'),
                Some('c'),
                Some('v'),
                Some('b'),
                Some('n'),
                Some('m'),
                Some(','),
                Some('.'),
                Some('/'),
            ]
            &&& glyphs(bottom, Lang::Ru) == seq![
                Some('я'),
                Some('ч'),
                Some('с'),
                Some('м'),
                Some('и'),
                Some('т'),
                Some('ь'),
                Some('б'),
                Some('ю'),
                None,
            ]
        }),
        glyph(PhysKey::Backtick, Lang::En) == Some('`') && glyph(PhysKey::Backtick, Lang::Ru) == Some('ё'),
{
    let top = seq![
        PhysKey::Q,
        PhysKey::W,
        PhysKey::E,
        PhysKey::R,
        PhysKey::T,
        PhysKey::Y,
        PhysKey::U,
        PhysKey::I,
        PhysKey::O,
        PhysKey::P,
        PhysKey::BracketL,
        PhysKey::BracketR,
    ];
    let home = seq![
        PhysKey::A,
        PhysKey::S,
        PhysKey::D,
        PhysKey::F,
        PhysKey::G,
        PhysKey::H,
        PhysKey::J,
        PhysKey::K,
        PhysKey::L,
        PhysKey::Semicolon,
        PhysKey::Quote,
    ];
    let bottom = seq![
        PhysKey::Z,
        PhysKey::X,
        PhysKey::C,
        PhysKey::V,
        PhysKey::B,
        PhysKey::N,
        PhysKey::M,
        PhysKey::Comma,
        PhysKey::Period,
        PhysKey::Slash,
    ];
    assert(glyphs(top, Lang::En) =~= seq![
        Some('q'),
        Some('w'),
        Some('e'),
        Some('r'),
        Some('t'),
        Some('y'),
        Some('u'),
        Some('i'),
        Some('o'),
        Some('p'),
        Some('['),
        Some(']'),
    ]);
    assert(glyphs(top, Lang::Ru) =~= seq![
        Some('й'),
        Some('ц'),
        Some('у'),
        Some('к'),
        Some('е'),
        Some('н'),
        Some('г'),
        Some('ш'),
        Some('щ'),
        Some('з'),
        Some('х'),
        Some('ъ'),
    ]);
    assert(glyphs(home, Lang::En) =~= seq![
        Some('a'),
        Some('s'),
        Some('d'),
        Some('f'),
        Some('g'),
        Some('h'),
        Some('j'),
        Some('k'),
        Some('l'),
        Some(';'),
        Some('\''),
    ]);
    assert(glyphs(home, Lang::Ru) =~= seq![
        Some('ф'),
        Some('ы'),
        Some('в'),
        Some('а'),
        Some('п'),
        Some('р'),
        Some('о'),
        Some('л'),
        Some('д'),
        Some('ж'),
        Some('э'),
    ]);
    assert(glyphs(bottom, Lang::En) =~= seq![
        Some('z'),
        Some('x'),
        Some('c'),
        Some('v'),
        Some('b'),
        Some('n'),
        Some('m'),
        Some(','),
        Some('.'),
        Some('/'),
    ]);
    assert(glyphs(bottom, Lang::Ru) =~= seq![
        Some('я'),
        Some('ч'),
        Some('с'),
        Some('м'),
        Some('и'),
        Some('т'),
        Some('ь'),
        Some('б'),
        Some('ю'),
        None,
    ]);
}

} // verus!
