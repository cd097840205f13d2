//! Wrong-layout detection: the decisions that need no floating point.
//!
//! Given a completed [`Word`] (a physical-key sequence plus the layout that was
//! active), decide whether it was actually meant for the *other* layout. The
//! design biases hard toward keeping the word. The signals here come first:
//! the minimum length, the never-correct list, and dictionary membership
//! (decisive). Only when they leave the question open does the bigram
//! language model weigh the two renderings.

use vstd::prelude::*;
use vstd::std_specs::iter::IteratorSpec;

use crate::buffer::Word;
use crate::convert::{render, render_keys};
use crate::dict::{contains, in_dictionary};
use crate::layout::Lang;
use crate::text::{chars_eq, chars_of};
use crate::unicode::{str_lowercase, lowercase_str};

verus! {

broadcast use vstd::string::group_string_axioms;

/// The outcome of analysing a word.
#[derive(Clone, Debug, PartialEq, Eq)]
pub enum Verdict {
    /// Leave the word as typed.
    Keep,
    /// Replace the typed word with this corrected text.
    Correct(String),
    /// Not confident enough — the caller treats this like `Keep`.
    Uncertain,
}

/// Where the cheap signals leave a word.
#[derive(Clone, Debug, PartialEq, Eq)]
pub enum Screening {
    /// The verdict is settled without scoring.
    Decided(Verdict),
    /// Both renderings are equally plausible by the dictionary: score them.
    Score {
        /// The rendering in the other layout, as it would be typed.
        conv: String,
        /// The same, lowercased.
        conv_lower: String,
        /// The rendering in the typed layout, lowercased.
        typed_lower: String,
    },
}

/// Some entry of `list` lowercases to exactly `word`.
pub open spec fn listed(list: Seq<String>, word: Seq<char>) -> bool {
    exists|i: int| 0 <= i < list.len() && lowercase_str(#[trigger] list[i]@) == word
}

/// True if some entry of `list`, lowercased, equals `word`.
pub fn in_list(list: &[String], word: &str) -> (r: bool)
    ensures
        r == listed(list@, word@),
{
    let w = chars_of(word);
    let mut i: usize = 0;
    while i < list.len()
        invariant
            i <= list.len(),
            w@ == word@,
            forall|j: int| 0 <= j < i ==> lowercase_str(#[trigger] list@[j]@) != word@,
        decreases list.len() - i,
    {
        let lower = str_lowercase(list[i].as_str());
        let l = chars_of(lower.as_str());
        if chars_eq(&l, &w) {
            return true;
        }
        i = i + 1;
    }
    false
}

/// The letters of `lang` in the order of its bigram tables.
pub open spec fn alphabet_of(lang: Lang) -> Seq<char> {
    match lang {
        Lang::En => "abcdefghijklmnopqrstuvwxyz"@,
        Lang::Ru => "абвгдеёжзийклмнопрстуфхцчшщъыьэюя"@,
    }
}

/// The letters of `lang` in the order of its bigram tables.
pub fn alphabet(lang: Lang) -> (r: &'static str)
    ensures
        r@ == alphabet_of(lang),
{
    match lang {
        Lang::En => "abcdefghijklmnopqrstuvwxyz",
        Lang::Ru => "абвгдеёжзийклмнопрстуфхцчшщъыьэюя",
    }
}

/// Position of `c` in the alphabet of `lang`.
pub fn char_index(c: char, lang: Lang) -> (r: Option<usize>)
    ensures
        r matches Some(i) ==> i < alphabet_of(lang).len() && alphabet_of(lang)[i as int] == c
            && forall|j: int| 0 <= j < i ==> alphabet_of(lang)[j] != c,
        r is None ==> !alphabet_of(lang).contains(c),
{
    let a = chars_of(alphabet(lang));
    let mut i: usize = 0;
    while i < a.len()
        invariant
            i <= a.len(),
            a@ == alphabet_of(lang),
            forall|j: int| 0 <= j < i ==> a@[j] != c,
        decreases a.len() - i,
    {
        if a[i] == c {
            return Some(i);
        }
        i = i + 1;
    }
    None
}

/// A rendering is a valid word of `lang`: a dictionary word (compared
/// lowercase) or, lowercased, one of the user's extra words.
pub open spec fn valid_word(rendered: Seq<char>, lang: Lang, extra: Seq<String>) -> bool {
    in_dictionary(lowercase_str(rendered), lang) || listed(
        extra,
        lowercase_str(rendered),
    )
}

/// The extra words of `lang`.
pub open spec fn extra_of(lang: Lang, extra_en: Seq<String>, extra_ru: Seq<String>) -> Seq<String> {
    match lang {
        Lang::En => extra_en,
        Lang::Ru => extra_ru,
    }
}

/// What the cheap signals decide for a word.
pub open spec fn screening_of(
    keys: Seq<crate::convert::Stroke>,
    lang: Lang,
    min_word_len: usize,
    extra_en: Seq<String>,
    extra_ru: Seq<String>,
    never_words: Seq<String>,
) -> ScreenOutcome {
    let conv_lang = lang.opposite();
    let typed = render(keys, lang);
    let conv = render(keys, conv_lang);
    let typed_valid = valid_word(typed, lang, extra_of(lang, extra_en, extra_ru));
    let conv_valid = valid_word(conv, conv_lang, extra_of(conv_lang, extra_en, extra_ru));
    if keys.len() < min_word_len {
        ScreenOutcome::Keep
    } else if listed(never_words, lowercase_str(typed)) {
        ScreenOutcome::Keep
    } else if typed_valid && !conv_valid {
        ScreenOutcome::Keep
    } else if conv_valid && !typed_valid {
        ScreenOutcome::Correct(conv)
    } else {
        ScreenOutcome::Score(conv, lowercase_str(conv), lowercase_str(typed))
    }
}

/// The mathematical outcome of screening.
pub enum ScreenOutcome {
    Keep,
    Correct(Seq<char>),
    Score(Seq<char>, Seq<char>, Seq<char>),
}

/// The outcome that a [`Screening`] value stands for.
pub open spec fn outcome_of(s: Screening) -> ScreenOutcome {
    match s {
        Screening::Decided(Verdict::Correct(t)) => ScreenOutcome::Correct(t@),
        Screening::Decided(_) => ScreenOutcome::Keep,
        Screening::Score { conv, conv_lower, typed_lower } => ScreenOutcome::Score(
            conv@,
            conv_lower@,
            typed_lower@,
        ),
    }
}

/// Apply the length, never-correct and dictionary signals to a completed word.
/// A settled verdict is always `Keep` or `Correct`; otherwise the word is
/// handed on for scoring.
pub fn screen(
    word: &Word,
    min_word_len: usize,
    extra_en: &[String],
    extra_ru: &[String],
    never_words: &[String],
) -> (r: Screening)
    ensures
        outcome_of(r) == screening_of(
            word.keys@,
            word.lang,
            min_word_len,
            extra_en@,
            extra_ru@,
            never_words@,
        ),
        !(r matches Screening::Decided(Verdict::Uncertain)),
{
    if word.keys.len() < min_word_len {
        return Screening::Decided(Verdict::Keep);
    }
    let typed_lang = word.lang;
    let conv_lang = typed_lang.other();
    let typed = render_keys(&word.keys, typed_lang);
    let conv = render_keys(&word.keys, conv_lang);
    let typed_l = str_lowercase(typed.as_str());
    let conv_l = str_lowercase(conv.as_str());

    // Never-correct list (exact typed form).
    if in_list(never_words, typed_l.as_str()) {
        return Screening::Decided(Verdict::Keep);
    }
    let (typed_extra, conv_extra) = match typed_lang {
        Lang::En => (extra_en, extra_ru),
        Lang::Ru => (extra_ru, extra_en),
    };
    let typed_valid = contains(typed.as_str(), typed_lang) || in_list(typed_extra, typed_l.as_str());
    let conv_valid = contains(conv.as_str(), conv_lang) || in_list(conv_extra, conv_l.as_str());

    // Decisive dictionary signals.
    if typed_valid && !conv_valid {
        return Screening::Decided(Verdict::Keep);
    }
    if conv_valid && !typed_valid {
        return Screening::Decided(Verdict::Correct(conv));
    }
    Screening::Score { conv, conv_lower: conv_l, typed_lower: typed_l }
}

/// The dictionary decides when it can, and it decides for what is a word:
/// a word of at least the minimum length, not on the never-correct list,
/// that is valid as typed and not valid in the other layout is kept; one
/// that is valid only in the other layout becomes exactly its other-layout
/// rendering. Whatever the inputs, a correction is never anything but that
/// rendering, and a word valid as typed is never corrected here.
pub proof fn law_dictionary_decides(
    keys: Seq<crate::convert::Stroke>,
    lang: Lang,
    min_word_len: usize,
    extra_en: Seq<String>,
    extra_ru: Seq<String>,
    never_words: Seq<String>,
)
    ensures
        ({
            let other = lang.opposite();
            let typed_valid = valid_word(render(keys, lang), lang, extra_of(lang, extra_en, extra_ru));
            let conv_valid = valid_word(render(keys, other), other, extra_of(other, extra_en, extra_ru));
            let out = screening_of(keys, lang, min_word_len, extra_en, extra_ru, never_words);
            &&& typed_valid && !conv_valid ==> out == ScreenOutcome::Keep
            &&& typed_valid ==> !(out is Correct)
            &&& out matches ScreenOutcome::Correct(t) ==> t == render(keys, other)
            &&& keys.len() < min_word_len ==> out == ScreenOutcome::Keep
            &&& conv_valid && !typed_valid && keys.len() >= min_word_len && !listed(
                never_words,
                lowercase_str(render(keys, lang)),
            ) ==> out == ScreenOutcome::Correct(render(keys, other))
        }),
{
}

} // verus!
