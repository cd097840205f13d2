//! Which layout a macOS input source is, judged from its (lowercased)
//! input-source ID such as `com.apple.keylayout.us` or
//! `com.apple.keylayout.russian`.

use vstd::prelude::*;

use crate::layout::Lang;
use crate::text::{chars_of, contains_chars, is_infix};

verus! {

/// The layout an input-source ID names: Russian if it mentions `russian`,
/// English if it mentions `.us`, `abc` or `english`.
pub open spec fn lang_of_source(id: Seq<char>) -> Option<Lang> {
    if is_infix(seq!['r', 'u', 's', 's', 'i', 'a', 'n'], id) {
        Some(Lang::Ru)
    } else if is_infix(seq!['.', 'u', 's'], id) || is_infix(seq!['a', 'b', 'c'], id) || is_infix(
        seq!['e', 'n', 'g', 'l', 'i', 's', 'h'],
        id,
    ) {
        Some(Lang::En)
    } else {
        None
    }
}

/// The layout of an input-source ID, if it is EN or RU.
pub fn lang_of_id(id: &str) -> (r: Option<Lang>)
    ensures
        r == lang_of_source(id@),
{
    let v = chars_of(id);
    let russian = ['r', 'u', 's', 's', 'i', 'a', 'n'];
    let us = ['.', 'u', 's'];
    let abc = ['a', 'b', 'c'];
    let english = ['e', 'n', 'g', 'l', 'i', 's', 'h'];
    assert(russian@ =~= seq!['r', 'u', 's', 's', 'i', 'a', 'n']);
    assert(us@ =~= seq!['.', 'u', 's']);
    assert(abc@ =~= seq!['a', 'b', 'c']);
    assert(english@ =~= seq!['e', 'n', 'g', 'l', 'i', 's', 'h']);
    if contains_chars(&v, &russian) {
        Some(Lang::Ru)
    } else if contains_chars(&v, &us) || contains_chars(&v, &abc) || contains_chars(&v, &english) {
        Some(Lang::En)
    } else {
        None
    }
}

/// Whether the input source `id` is the layout `lang`.
pub fn id_matches(lang: Lang, id: &str) -> (r: bool)
    ensures
        r == (lang_of_source(id@) == Some(lang)),
{
    match lang_of_id(id) {
        Some(l) => l == lang,
        None => false,
    }
}

} // verus!
