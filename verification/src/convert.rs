//! Layout-independent text conversion.
//!
//! Two entry points:
//! * [`render_keys`] — render a captured physical-key sequence through a target
//!   layout. This is the primary path: the word buffer already knows the keys.
//! * [`convert_str`] / [`convert_str_to`] — convert an existing string by first
//!   recovering the physical keys from its glyphs. Used by the manual hotkey
//!   (when only text is available) and by tests.

use vstd::prelude::*;
use vstd::std_specs::iter::IteratorSpec;

use crate::keycode::PhysKey;
use crate::layout::{
    char_to_key, glyph, is_letter_of, key_for_char, key_of_glyph, key_to_char, letter_of,
    to_lower, Lang,
};
use crate::text::{push_char, push_str, string_of_char};
use crate::unicode::{
    alphabetic, basic_lower, basic_upper, char_upper, in_basic_range, lower_char, upper_chars,
};

verus! {

broadcast use vstd::string::group_string_axioms;

/// A captured keystroke: the physical key and whether Shift was held.
#[derive(Clone, Copy, PartialEq, Eq, Debug, Structural)]
pub struct Stroke {
    pub key: PhysKey,
    pub shift: bool,
}

/// The text one keystroke produces in `lang`: its glyph, uppercased under
/// Shift; nothing for a key with no glyph there.
pub open spec fn stroke_text(s: Stroke, lang: Lang) -> Seq<char> {
    match glyph(s.key, lang) {
        Some(c) => if s.shift {
            upper_chars(c)
        } else {
            seq![c]
        },
        None => seq![],
    }
}

/// The text a keystroke sequence produces in `lang`.
pub open spec fn render(keys: Seq<Stroke>, lang: Lang) -> Seq<char>
    decreases keys.len(),
{
    if keys.len() == 0 {
        seq![]
    } else {
        render(keys.drop_last(), lang) + stroke_text(keys.last(), lang)
    }
}

/// `target` given the case of `source`.
pub open spec fn with_case_of(source: char, target: char) -> Seq<char> {
    if source != lower_char(source) {
        upper_chars(target)
    } else {
        seq![target]
    }
}

/// The glyph that the key behind `c` (in `from`) produces in the other layout.
pub open spec fn counterpart(c: char, from: Lang) -> Option<char> {
    match key_for_char(c, from) {
        Some(k) => glyph(k, from.opposite()),
        None => None,
    }
}

/// One char converted from `from` to the other layout, case preserved;
/// chars without a counterpart pass through.
pub open spec fn convert_char_from(c: char, from: Lang) -> Seq<char> {
    match counterpart(c, from) {
        Some(t) => with_case_of(c, t),
        None => seq![c],
    }
}

/// A text converted char by char from `from` to the other layout.
pub open spec fn convert_from(s: Seq<char>, from: Lang) -> Seq<char>
    decreases s.len(),
{
    if s.len() == 0 {
        seq![]
    } else {
        convert_from(s.drop_last(), from) + convert_char_from(s.last(), from)
    }
}

/// One char converted with its source layout detected: a layout that treats
/// it as a letter is preferred, then one that knows it as punctuation;
/// otherwise it passes through.
pub open spec fn auto_convert_char(c: char) -> Seq<char> {
    if letter_of(c, Lang::En) && counterpart(c, Lang::En) is Some {
        with_case_of(c, counterpart(c, Lang::En).unwrap())
    } else if letter_of(c, Lang::Ru) && counterpart(c, Lang::Ru) is Some {
        with_case_of(c, counterpart(c, Lang::Ru).unwrap())
    } else if counterpart(c, Lang::En) is Some {
        with_case_of(c, counterpart(c, Lang::En).unwrap())
    } else if counterpart(c, Lang::Ru) is Some {
        with_case_of(c, counterpart(c, Lang::Ru).unwrap())
    } else {
        seq![c]
    }
}

/// A text converted char by char with detected source layouts.
pub open spec fn auto_convert(s: Seq<char>) -> Seq<char>
    decreases s.len(),
{
    if s.len() == 0 {
        seq![]
    } else {
        auto_convert(s.drop_last()) + auto_convert_char(s.last())
    }
}

/// Render a physical-key sequence as text in `lang`, applying Shift as
/// uppercase. Keys with no glyph in `lang` are skipped.
pub fn render_keys(keys: &[Stroke], lang: Lang) -> (r: String)
    ensures
        r@ == render(keys@, lang),
{
    let mut out = String::new();
    let mut i: usize = 0;
    while i < keys.len()
        invariant
            i <= keys.len(),
            out@ == render(keys@.take(i as int), lang),
        decreases keys.len() - i,
    {
        let s = keys[i];
        assert(keys@.take(i + 1).drop_last() =~= keys@.take(i as int));
        if let Some(c) = key_to_char(s.key, lang) {
            if s.shift {
                let up = char_upper(c);
                push_str(&mut out, up.as_str());
            } else {
                push_char(&mut out, c);
            }
        }
        assert(out@ =~= render(keys@.take(i + 1), lang));
        i = i + 1;
    }
    assert(keys@.take(keys.len() as int) =~= keys@);
    out
}

/// Give `target` the case of `source`.
fn apply_case(source: char, target: char) -> (r: String)
    ensures
        r@ == with_case_of(source, target),
{
    if source != to_lower(source) {
        char_upper(target)
    } else {
        string_of_char(target)
    }
}

fn counterpart_of(c: char, from: Lang) -> (r: Option<char>)
    ensures
        r == counterpart(c, from),
{
    match char_to_key(c, from) {
        Some(k) => key_to_char(k, from.other()),
        None => None,
    }
}

fn convert_char(c: char) -> (r: String)
    ensures
        r@ == auto_convert_char(c),
{
    // Prefer whichever layout treats `c` as a letter; fall back to punctuation.
    if is_letter_of(c, Lang::En) {
        if let Some(t) = counterpart_of(c, Lang::En) {
            return apply_case(c, t);
        }
    }
    if is_letter_of(c, Lang::Ru) {
        if let Some(t) = counterpart_of(c, Lang::Ru) {
            return apply_case(c, t);
        }
    }
    if let Some(t) = counterpart_of(c, Lang::En) {
        return apply_case(c, t);
    }
    if let Some(t) = counterpart_of(c, Lang::Ru) {
        return apply_case(c, t);
    }
    string_of_char(c)
}

/// Convert `s`, auto-detecting each character's source layout and rendering it
/// through the opposite one. Case is preserved. Characters that belong to
/// neither layout table are passed through unchanged.
pub fn convert_str(s: &str) -> (r: String)
    ensures
        r@ == auto_convert(s@),
{
    let mut out = String::new();
    let mut it = s.chars();
    let ghost total = s@;
    let ghost mut idx: int = 0;
    loop
        invariant
            out@ == auto_convert(total.take(idx)),
            it.remaining() == total.skip(idx),
            0 <= idx <= total.len(),
            it.obeys_prophetic_iter_laws(),
        ensures
            out@ == auto_convert(total),
        decreases total.len() - idx,
    {
        match it.next() {
            Some(c) => {
                let piece = convert_char(c);
                push_str(&mut out, piece.as_str());
                proof {
                    assert(total.take(idx + 1).drop_last() =~= total.take(idx));
                    assert(total[idx] == c);
                    idx = idx + 1;
                }
            },
            None => {
                assert(total.take(idx) =~= total);
                break ;
            },
        }
    }
    out
}

/// Convert `s` assuming its letters were typed in `from` layout, rendering
/// through `from.other()`. Non-letters of `from` pass through unchanged.
pub fn convert_str_to(s: &str, from: Lang) -> (r: String)
    ensures
        r@ == convert_from(s@, from),
{
    let to = from.other();
    let mut out = String::new();
    let mut it = s.chars();
    let ghost total = s@;
    let ghost mut idx: int = 0;
    loop
        invariant
            out@ == convert_from(total.take(idx), from),
            it.remaining() == total.skip(idx),
            0 <= idx <= total.len(),
            it.obeys_prophetic_iter_laws(),
            to == from.opposite(),
        ensures
            out@ == convert_from(total, from),
        decreases total.len() - idx,
    {
        match it.next() {
            Some(c) => {
                let converted = match char_to_key(c, from) {
                    Some(k) => key_to_char(k, to),
                    None => None,
                };
                match converted {
                    Some(t) => {
                        let piece = apply_case(c, t);
                        push_str(&mut out, piece.as_str());
                    },
                    None => push_char(&mut out, c),
                }
                proof {
                    assert(total.take(idx + 1).drop_last() =~= total.take(idx));
                    assert(total[idx] == c);
                    idx = idx + 1;
                }
            },
            None => {
                assert(total.take(idx) =~= total);
                break ;
            },
        }
    }
    out
}

/// `c` survives a conversion from `from` and back: it is ASCII or basic
/// Cyrillic, and either it converts and keeps its case through the round
/// trip (it is lowercase, or its counterpart is a letter that can carry
/// uppercase), or it passes through and the other layout leaves it alone
/// too.
pub open spec fn round_trips(c: char, from: Lang) -> bool {
    in_basic_range(c) && match counterpart(c, from) {
        Some(t) => c == lower_char(c) || alphabetic(t),
        None => counterpart(c, from.opposite()) is None,
    }
}

proof fn lemma_glyph_facts(k: PhysKey, lang: Lang)
    ensures
        glyph(k, lang) matches Some(g) ==> {
            &&& in_basic_range(g)
            &&& lower_char(g) == g
            &&& key_of_glyph(g, lang) == Some(k)
            &&& alphabetic(g) ==> {
                &&& in_basic_range(basic_upper(g))
                &&& basic_upper(g) != g
                &&& lower_char(basic_upper(g)) == g
            }
        },
{
}

proof fn lemma_key_of_glyph_inverse(c: char, lang: Lang)
    ensures
        key_of_glyph(c, lang) matches Some(k) ==> glyph(k, lang) == Some(c),
{
}

proof fn lemma_upper_of_lower(c: char)
    requires
        in_basic_range(c),
        c != lower_char(c),
    ensures
        basic_upper(basic_lower(c)) == c,
        lower_char(c) == basic_lower(c),
{
}

proof fn lemma_convert_single(c: char, from: Lang)
    ensures
        convert_from(seq![c], from) == convert_char_from(c, from),
{
    assert(seq![c].drop_last() =~= Seq::<char>::empty());
    assert(seq![c].last() == c);
    assert(convert_from(Seq::<char>::empty(), from) + convert_char_from(c, from)
        =~= convert_char_from(c, from));
}

/// Conversion works char by char: converting a concatenation converts the
/// parts.
pub proof fn lemma_convert_concat(a: Seq<char>, b: Seq<char>, from: Lang)
    ensures
        convert_from(a + b, from) == convert_from(a, from) + convert_from(b, from),
    decreases b.len(),
{
    if b.len() == 0 {
        assert(a + b =~= a);
        assert(convert_from(a, from) + convert_from(b, from) =~= convert_from(a, from));
    } else {
        lemma_convert_concat(a, b.drop_last(), from);
        assert((a + b).drop_last() =~= a + b.drop_last());
        assert((a + b).last() == b.last());
        assert(convert_from(a, from) + convert_from(b, from) =~= convert_from(a, from)
            + convert_from(b.drop_last(), from) + convert_char_from(b.last(), from));
    }
}

proof fn lemma_char_round_trip(c: char, from: Lang) -> (d: char)
    requires
        round_trips(c, from),
    ensures
        convert_char_from(c, from) == seq![d],
        convert_char_from(d, from.opposite()) == seq![c],
{
    let to = from.opposite();
    match counterpart(c, from) {
        Some(t) => {
            let g = lower_char(c);
            let k = key_of_glyph(g, from).unwrap();
            lemma_key_of_glyph_inverse(g, from);
            lemma_glyph_facts(k, to);
            lemma_glyph_facts(k, from);
            assert(glyph(k, from) == Some(g));
            assert(to.opposite() == from);
            if c == lower_char(c) {
                assert(counterpart(t, to) == Some(c));
                t
            } else {
                lemma_upper_of_lower(c);
                let big = basic_upper(t);
                assert(counterpart(big, to) == Some(g));
                assert(upper_chars(g) == seq![c]);
                big
            }
        },
        None => c,
    }
}

/// Converting a text from `from` and then back from the other layout gives
/// the text back, for every text whose chars all survive the round trip.
pub proof fn law_convert_round_trip(s: Seq<char>, from: Lang)
    requires
        forall|i: int| 0 <= i < s.len() ==> round_trips(#[trigger] s[i], from),
    ensures
        convert_from(convert_from(s, from), from.opposite()) == s,
    decreases s.len(),
{
    if s.len() > 0 {
        let init = s.drop_last();
        assert forall|i: int| 0 <= i < init.len() implies round_trips(#[trigger] init[i], from) by {
            assert(init[i] == s[i]);
        }
        law_convert_round_trip(init, from);
        let c = s.last();
        assert(round_trips(s[s.len() - 1], from));
        let d = lemma_char_round_trip(c, from);
        lemma_convert_concat(convert_from(init, from), seq![d], from.opposite());
        lemma_convert_single(d, from.opposite());
        assert(s =~= init + seq![c]);
    }
}

/// A keystroke that converts faithfully from `from`: its key produces a glyph
/// in both layouts, and under Shift the source glyph is a letter (punctuation
/// has no uppercase to carry the Shift over).
pub open spec fn converts_faithfully(s: Stroke, from: Lang) -> bool {
    &&& glyph(s.key, from) is Some
    &&& glyph(s.key, from.opposite()) is Some
    &&& s.shift ==> alphabetic(glyph(s.key, from).unwrap())
}

proof fn lemma_stroke_converts(s: Stroke, from: Lang)
    requires
        converts_faithfully(s, from),
    ensures
        convert_from(stroke_text(s, from), from) == stroke_text(s, from.opposite()),
{
    let to = from.opposite();
    let k = s.key;
    let g = glyph(k, from).unwrap();
    let t = glyph(k, to).unwrap();
    lemma_glyph_facts(k, from);
    lemma_glyph_facts(k, to);
    if s.shift {
        let big = basic_upper(g);
        assert(stroke_text(s, from) == seq![big]);
        lemma_convert_single(big, from);
        assert(counterpart(big, from) == Some(t));
    } else {
        lemma_convert_single(g, from);
        assert(counterpart(g, from) == Some(t));
    }
}

/// Rendering keystrokes through the other layout is the same as converting
/// their rendering in the typed layout: the keys are the source of truth.
pub proof fn law_render_then_convert(keys: Seq<Stroke>, from: Lang)
    requires
        forall|i: int| 0 <= i < keys.len() ==> converts_faithfully(#[trigger] keys[i], from),
    ensures
        convert_from(render(keys, from), from) == render(keys, from.opposite()),
    decreases keys.len(),
{
    if keys.len() > 0 {
        let init = keys.drop_last();
        assert forall|i: int| 0 <= i < init.len() implies converts_faithfully(
            #[trigger] init[i],
            from,
        ) by {
            assert(init[i] == keys[i]);
        }
        law_render_then_convert(init, from);
        assert(converts_faithfully(keys[keys.len() - 1], from));
        lemma_stroke_converts(keys.last(), from);
        lemma_convert_concat(render(init, from), stroke_text(keys.last(), from), from);
    }
}

/// How many of `keys` produce a glyph in `lang`.
pub open spec fn glyph_count(keys: Seq<Stroke>, lang: Lang) -> nat
    decreases keys.len(),
{
    if keys.len() == 0 {
        0
    } else {
        glyph_count(keys.drop_last(), lang) + if glyph(keys.last().key, lang) is Some {
            1nat
        } else {
            0nat
        }
    }
}

/// Rendering gives one char per key that has a glyph in the layout, Shift or
/// not: every key under English, every key but Slash under Russian.
pub proof fn law_render_length(keys: Seq<Stroke>, lang: Lang)
    ensures
        render(keys, lang).len() == glyph_count(keys, lang),
        glyph_count(keys, Lang::En) == keys.len(),
        glyph_count(keys, Lang::Ru) == keys.len() - glyph_count(keys.filter(|s: Stroke| s.key == PhysKey::Slash), Lang::En),
    decreases keys.len(),
{
    if keys.len() > 0 {
        let init = keys.drop_last();
        let last = keys.last();
        law_render_length(init, lang);
        lemma_glyph_facts(last.key, lang);
        let slash = |s: Stroke| s.key == PhysKey::Slash;
        assert(init.push(last) =~= keys);
        init.lemma_filter_push(last, slash);
        let fi = init.filter(slash);
        if last.key == PhysKey::Slash {
            assert(fi.push(last).drop_last() =~= fi);
        }
    }
}

/// Converting text keeps its length: every char becomes exactly one char.
pub proof fn law_convert_length(s: Seq<char>, from: Lang)
    ensures
        convert_from(s, from).len() == s.len(),
    decreases s.len(),
{
    if s.len() > 0 {
        law_convert_length(s.drop_last(), from);
        let c = s.last();
        match key_for_char(c, from) {
            Some(k) => lemma_glyph_facts(k, from.opposite()),
            None => {},
        }
    }
}

/// The counterpart of each char of `s` in the other layout.
pub open spec fn counterparts(s: Seq<char>, from: Lang) -> Seq<Option<char>> {
    s.map_values(|c: char| counterpart(c, from))
}

/// Conversion follows the standard layouts key by key: each letter-block
/// glyph of QWERTY becomes the ЙЦУКЕН glyph on the same key and back, e.g.
/// `c` and `с`, `s` and `ы`.
pub proof fn law_standard_counterparts()
    ensures
        counterparts(seq!['q', 'w', 'e', 'r', 't', 'y', 'u', 'i', 'o', 'p', '[', ']', 'a', 's', 'd', 'f', 'g', 'h', 'j', 'k', 'l', ';', '\'', 'z', 'x', 'c', 'v', 'b', 'n', 'm', ',', '.', '`'], Lang::En) == seq![Some('й'), Some('ц'), Some('у'), Some('к'), Some('е'), Some('н'), Some('г'), Some('ш'), Some('щ'), Some('з'), Some('х'), Some('ъ'), Some('ф'), Some('ы'), Some('в'), Some('а'), Some('п'), Some('р'), Some('о'), Some('л'), Some('д'), Some('ж'), Some('э'), Some('я'), Some('ч'), Some('с'), Some('м'), Some('и'), Some('т'), Some('ь'), Some('б'), Some('ю'), Some('ё')],
        counterparts(seq!['й', 'ц', 'у', 'к', 'е', 'н', 'г', 'ш', 'щ', 'з', 'х', 'ъ', 'ф', 'ы', 'в', 'а', 'п', 'р', 'о', 'л', 'д', 'ж', 'э', 'я', 'ч', 'с', 'м', 'и', 'т', 'ь', 'б', 'ю', 'ё'], Lang::Ru) == seq![Some('q'), Some('w'), Some('e'), Some('r'), Some('t'), Some('y'), Some('u'), Some('i'), Some('o'), Some('p'), Some('['), Some(']'), Some('a'), Some('s'), Some('d'), Some('f'), Some('g'), Some('h'), Some('j'), Some('k'), Some('l'), Some(';'), Some('\''), Some('z'), Some('x'), Some('c'), Some('v'), Some('b'), Some('n'), Some('m'), Some(','), Some('.'), Some('`')],
{
    assert(counterparts(seq!['q', 'w', 'e', 'r', 't', 'y', 'u', 'i', 'o', 'p', '[', ']', 'a', 's', 'd', 'f', 'g', 'h', 'j', 'k', 'l', ';', '\'', 'z', 'x', 'c', 'v', 'b', 'n', 'm', ',', '.', '`'], Lang::En) =~= seq![Some('й'), Some('ц'), Some('у'), Some('к'), Some('е'), Some('н'), Some('г'), Some('ш'), Some('щ'), Some('з'), Some('х'), Some('ъ'), Some('ф'), Some('ы'), Some('в'), Some('а'), Some('п'), Some('р'), Some('о'), Some('л'), Some('д'), Some('ж'), Some('э'), Some('я'), Some('ч'), Some('с'), Some('м'), Some('и'), Some('т'), Some('ь'), Some('б'), Some('ю'), Some('ё')]);
    assert(counterparts(seq!['й', 'ц', 'у', 'к', 'е', 'н', 'г', 'ш', 'щ', 'з', 'х', 'ъ', 'ф', 'ы', 'в', 'а', 'п', 'р', 'о', 'л', 'д', 'ж', 'э', 'я', 'ч', 'с', 'м', 'и', 'т', 'ь', 'б', 'ю', 'ё'], Lang::Ru) =~= seq![Some('q'), Some('w'), Some('e'), Some('r'), Some('t'), Some('y'), Some('u'), Some('i'), Some('o'), Some('p'), Some('['), Some(']'), Some('a'), Some('s'), Some('d'), Some('f'), Some('g'), Some('h'), Some('j'), Some('k'), Some('l'), Some(';'), Some('\''), Some('z'), Some('x'), Some('c'), Some('v'), Some('b'), Some('n'), Some('m'), Some(','), Some('.'), Some('`')]);
}

} // verus!
