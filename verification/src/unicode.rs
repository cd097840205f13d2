//! Case mapping and character classes from the standard library, with the
//! facts about the ASCII and basic Cyrillic ranges that the layout tables rely
//! on.

use vstd::prelude::*;

verus! {

/// First char of the Unicode lowercase mapping of `c` (`char::to_lowercase`).
pub uninterp spec fn unicode_lower(c: char) -> char;

/// The Unicode uppercase mapping of `c` (`char::to_uppercase`), as chars.
pub uninterp spec fn unicode_upper(c: char) -> Seq<char>;

/// Unicode `Alphabetic` property of `c` (`char::is_alphabetic`).
pub uninterp spec fn unicode_alphabetic(c: char) -> bool;

/// The Unicode lowercase form of a whole string (`str::to_lowercase`).
pub uninterp spec fn unicode_lowercase_str(s: Seq<char>) -> Seq<char>;

/// The Unicode uppercase form of a whole string (`str::to_uppercase`).
pub uninterp spec fn unicode_uppercase_str(s: Seq<char>) -> Seq<char>;

/// Chars of the ranges whose case mapping is stated here: ASCII and the basic
/// Cyrillic block U+0400..=U+045F.
pub open spec fn in_basic_range(c: char) -> bool {
    (c as u32) < 0x80 || (0x400 <= (c as u32) && (c as u32) <= 0x45f)
}

/// ASCII uppercase letter.
pub open spec fn is_ascii_upper(c: char) -> bool {
    'A' <= c && c <= 'Z'
}

/// ASCII lowercase letter.
pub open spec fn is_ascii_lower(c: char) -> bool {
    'a' <= c && c <= 'z'
}

/// The simple lowercase mapping of UnicodeData.txt on the basic ranges:
/// A..Z and U+0410..U+042F move up by 0x20, U+0400..U+040F by 0x50, every
/// other char of the ranges maps to itself.
pub open spec fn basic_lower(c: char) -> char {
    let u = c as u32;
    if is_ascii_upper(c) {
        (u + 32) as char
    } else if 0x400 <= u && u <= 0x40f {
        (u + 0x50) as char
    } else if 0x410 <= u && u <= 0x42f {
        (u + 0x20) as char
    } else {
        c
    }
}

/// The simple uppercase mapping of UnicodeData.txt on the basic ranges, the
/// inverse of [`basic_lower`] on letters.
pub open spec fn basic_upper(c: char) -> char {
    let u = c as u32;
    if is_ascii_lower(c) {
        (u - 32) as char
    } else if 0x430 <= u && u <= 0x44f {
        (u - 0x20) as char
    } else if 0x450 <= u && u <= 0x45f {
        (u - 0x50) as char
    } else {
        c
    }
}

/// The `Alphabetic` property on the basic ranges: ASCII letters and every
/// char of U+0400..=U+045F.
pub open spec fn basic_alphabetic(c: char) -> bool {
    is_ascii_upper(c) || is_ascii_lower(c) || (0x400 <= (c as u32) && (c as u32) <= 0x45f)
}

/// Lowercase of `c` as `char::to_lowercase` gives it (first char): the simple
/// mapping on the basic ranges, the named Unicode mapping elsewhere.
pub open spec fn lower_char(c: char) -> char {
    if in_basic_range(c) {
        basic_lower(c)
    } else {
        unicode_lower(c)
    }
}

/// Uppercase of `c` as `char::to_uppercase` gives it.
pub open spec fn upper_chars(c: char) -> Seq<char> {
    if in_basic_range(c) {
        seq![basic_upper(c)]
    } else {
        unicode_upper(c)
    }
}

/// `Alphabetic` property of `c` as `char::is_alphabetic` gives it.
pub open spec fn alphabetic(c: char) -> bool {
    if in_basic_range(c) {
        basic_alphabetic(c)
    } else {
        unicode_alphabetic(c)
    }
}

/// Every char of `s` is in ASCII or basic Cyrillic.
pub open spec fn all_basic(s: Seq<char>) -> bool {
    forall|i: int| 0 <= i < s.len() ==> in_basic_range(#[trigger] s[i])
}

/// Lowercase of a string as `str::to_lowercase` gives it: char by char on
/// ASCII and basic Cyrillic text, the named Unicode form elsewhere.
pub open spec fn lowercase_str(s: Seq<char>) -> Seq<char> {
    if all_basic(s) {
        s.map_values(|c: char| basic_lower(c))
    } else {
        unicode_lowercase_str(s)
    }
}

/// Uppercase of a string as `str::to_uppercase` gives it: char by char on
/// ASCII and basic Cyrillic text, the named Unicode form elsewhere.
pub open spec fn uppercase_str(s: Seq<char>) -> Seq<char> {
    if all_basic(s) {
        s.map_values(|c: char| basic_upper(c))
    } else {
        unicode_uppercase_str(s)
    }
}

/// Calls `char::to_lowercase` and keeps the first char of the mapping (or `c`
/// itself if the mapping were empty). Claimed: the result is the named
/// lowercase of `c` outside ASCII and basic Cyrillic; on ASCII and basic Cyrillic it is the one-to-one
/// mapping of UnicodeData.txt, which the documentation of `to_lowercase`
/// refers to.
#[verifier::external_body]
pub(crate) fn char_lower_first(c: char) -> (r: char)
    ensures
        in_basic_range(c) ==> r == basic_lower(c),
        !in_basic_range(c) ==> r == unicode_lower(c),
{
    c.to_lowercase().next().unwrap_or(c)
}

/// Calls `char::to_uppercase` and collects the mapping into a `String`.
/// Claimed: the result is the named uppercase of `c` outside ASCII and
/// basic Cyrillic; there it is the single char of the one-to-one UnicodeData.txt mapping.
#[verifier::external_body]
pub(crate) fn char_upper(c: char) -> (r: String)
    ensures
        in_basic_range(c) ==> r@ == seq![basic_upper(c)],
        !in_basic_range(c) ==> r@ == unicode_upper(c),
{
    c.to_uppercase().collect()
}

/// Calls `char::is_alphabetic`. Claimed: the result is the named property outside
/// ASCII and basic Cyrillic; there it holds exactly of the letters.
#[verifier::external_body]
pub(crate) fn char_is_alphabetic(c: char) -> (r: bool)
    ensures
        in_basic_range(c) ==> r == basic_alphabetic(c),
        !in_basic_range(c) ==> r == unicode_alphabetic(c),
{
    c.is_alphabetic()
}

/// Calls `str::to_lowercase`. Claimed: the result is the named lowercase form
/// of the argument; for a string wholly in ASCII and basic Cyrillic it is
/// the char-by-char simple mapping, which is how the documentation of
/// `to_lowercase` defines it (no char there has a context-dependent or
/// multi-char lowercase).
#[verifier::external_body]
pub(crate) fn str_lowercase(s: &str) -> (r: String)
    ensures
        all_basic(s@) ==> r@ == s@.map_values(|c: char| basic_lower(c)),
        !all_basic(s@) ==> r@ == unicode_lowercase_str(s@),
{
    s.to_lowercase()
}

/// Calls `str::to_uppercase`. Claimed: the result is the named uppercase form
/// of the argument; for a string wholly in ASCII and basic Cyrillic it is
/// the char-by-char simple mapping, as the documentation of `to_uppercase`
/// defines it (every char there has a single-char uppercase).
#[verifier::external_body]
pub(crate) fn str_uppercase(s: &str) -> (r: String)
    ensures
        all_basic(s@) ==> r@ == s@.map_values(|c: char| basic_upper(c)),
        !all_basic(s@) ==> r@ == unicode_uppercase_str(s@),
{
    s.to_uppercase()
}

} // verus!
