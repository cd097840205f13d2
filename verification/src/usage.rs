//! Per-word autocomplete acceptance counters.

use vstd::prelude::*;

use crate::layout::Lang;
use crate::text::{
    chars_of, compare_chars, lemma_seq_less_irreflexive, lemma_seq_less_total,
    lemma_seq_less_transitive, seq_less, string_from, Order,
};

verus! {

broadcast use vstd::string::group_string_axioms;

/// One learned counter: a word and how often its completion was accepted.
pub open spec fn entry_view(e: (String, u32)) -> (Seq<char>, u32) {
    (e.0@, e.1)
}

/// The counters of one language, as words and counts.
pub open spec fn entries_view(v: Seq<(String, u32)>) -> Seq<(Seq<char>, u32)> {
    v.map_values(|e: (String, u32)| entry_view(e))
}

/// Words appear in strictly increasing order (so none appears twice).
pub open spec fn sorted_words(es: Seq<(Seq<char>, u32)>) -> bool {
    forall|i: int, j: int| 0 <= i < j < es.len() ==> seq_less(#[trigger] es[i].0, #[trigger] es[j].0)
}

/// `w` has a learned counter.
pub open spec fn has_word(es: Seq<(Seq<char>, u32)>, w: Seq<char>) -> bool {
    exists|i: int| 0 <= i < es.len() && #[trigger] es[i].0 == w
}

/// The learned count of `w` (0 when absent).
pub open spec fn word_count(es: Seq<(Seq<char>, u32)>, w: Seq<char>) -> u32 {
    if has_word(es, w) {
        es[choose|i: int| 0 <= i < es.len() && #[trigger] es[i].0 == w].1
    } else {
        0
    }
}

/// `c + 1`, saturating at `u32::MAX`.
pub open spec fn saturating_inc(c: u32) -> u32 {
    if c == u32::MAX {
        c
    } else {
        (c + 1) as u32
    }
}

/// Merging `e` from an imported set raises the local counter: a non-zero
/// count for a word that is absent or lower locally.
pub open spec fn raises(base: Seq<(Seq<char>, u32)>, e: (Seq<char>, u32)) -> bool {
    e.1 > 0 && (!has_word(base, e.0) || e.1 > word_count(base, e.0))
}

/// How many of the imported counters `es` raise a local counter.
pub open spec fn count_raises(base: Seq<(Seq<char>, u32)>, es: Seq<(Seq<char>, u32)>) -> nat
    decreases es.len(),
{
    if es.len() == 0 {
        0
    } else {
        count_raises(base, es.drop_last()) + if raises(base, es.last()) {
            1nat
        } else {
            0nat
        }
    }
}

/// After a max-merge of `incoming` into `base`: whether `w` is present.
pub open spec fn merged_has(
    base: Seq<(Seq<char>, u32)>,
    incoming: Seq<(Seq<char>, u32)>,
    w: Seq<char>,
) -> bool {
    has_word(base, w) || (has_word(incoming, w) && word_count(incoming, w) > 0)
}

/// After a max-merge of `incoming` into `base`: the count of `w`, the greater
/// of the two (zero imported counts are ignored).
pub open spec fn merged_count(
    base: Seq<(Seq<char>, u32)>,
    incoming: Seq<(Seq<char>, u32)>,
    w: Seq<char>,
) -> u32 {
    if has_word(incoming, w) && word_count(incoming, w) > word_count(base, w) {
        word_count(incoming, w)
    } else {
        word_count(base, w)
    }
}

proof fn lemma_unique(es: Seq<(Seq<char>, u32)>, i: int, j: int)
    requires
        sorted_words(es),
        0 <= i < es.len(),
        0 <= j < es.len(),
        es[i].0 == es[j].0,
    ensures
        i == j,
{
    lemma_seq_less_irreflexive(es[i].0);
    if i < j {
        assert(seq_less(es[i].0, es[j].0));
    } else if j < i {
        assert(seq_less(es[j].0, es[i].0));
    }
}

proof fn lemma_count_at(es: Seq<(Seq<char>, u32)>, i: int)
    requires
        sorted_words(es),
        0 <= i < es.len(),
    ensures
        has_word(es, es[i].0),
        word_count(es, es[i].0) == es[i].1,
{
    let w = es[i].0;
    assert(has_word(es, w));
    let k = choose|k: int| 0 <= k < es.len() && #[trigger] es[k].0 == w;
    lemma_unique(es, i, k);
}

proof fn lemma_absent(es: Seq<(Seq<char>, u32)>, w: Seq<char>, p: int)
    requires
        0 <= p <= es.len(),
        forall|j: int| 0 <= j < p ==> seq_less(#[trigger] es[j].0, w),
        forall|j: int| p <= j < es.len() ==> seq_less(w, #[trigger] es[j].0),
    ensures
        !has_word(es, w),
{
    lemma_seq_less_irreflexive(w);
    if has_word(es, w) {
        let k = choose|k: int| 0 <= k < es.len() && #[trigger] es[k].0 == w;
        if k < p {
            assert(seq_less(es[k].0, w));
        } else {
            assert(seq_less(w, es[k].0));
        }
    }
}

/// Find `w`: its index, or where it would be inserted.
fn locate(es: &Vec<(String, u32)>, w: &[char]) -> (r: (bool, usize))
    requires
        sorted_words(entries_view(es@)),
    ensures
        r.1 <= es.len(),
        r.0 ==> r.1 < es.len() && es@[r.1 as int].0@ == w@,
        !r.0 ==> (forall|j: int| 0 <= j < r.1 ==> seq_less(#[trigger] es@[j].0@, w@)) && (forall|
            j: int,
        |
            r.1 <= j < es.len() ==> seq_less(w@, #[trigger] es@[j].0@)),
{
    let ghost ev = entries_view(es@);
    let mut i: usize = 0;
    while i < es.len()
        invariant
            i <= es.len(),
            ev == entries_view(es@),
            sorted_words(ev),
            forall|j: int| 0 <= j < i ==> seq_less(#[trigger] es@[j].0@, w@),
        decreases es.len() - i,
    {
        let ew = chars_of(es[i].0.as_str());
        match compare_chars(&ew, w) {
            Order::Less => {
                i = i + 1;
            },
            Order::Equal => {
                return (true, i);
            },
            Order::Greater => {
                assert forall|j: int| i <= j < es.len() implies seq_less(
                    w@,
                    #[trigger] es@[j].0@,
                ) by {
                    if j > i {
                        assert(ev[i as int].0 == es@[i as int].0@);
                        assert(ev[j].0 == es@[j].0@);
                        assert(seq_less(ev[i as int].0, ev[j].0));
                        lemma_seq_less_transitive(w@, es@[i as int].0@, es@[j].0@);
                    }
                }
                return (false, i);
            },
        }
    }
    (false, i)
}

proof fn lemma_insert_sorted(es: Seq<(Seq<char>, u32)>, p: int, e: (Seq<char>, u32))
    requires
        sorted_words(es),
        0 <= p <= es.len(),
        forall|j: int| 0 <= j < p ==> seq_less(#[trigger] es[j].0, e.0),
        forall|j: int| p <= j < es.len() ==> seq_less(e.0, #[trigger] es[j].0),
    ensures
        sorted_words(es.insert(p, e)),
{
    let s = es.insert(p, e);
    assert forall|i: int, j: int| 0 <= i < j < s.len() implies seq_less(
        #[trigger] s[i].0,
        #[trigger] s[j].0,
    ) by {
        if j < p {
            assert(s[i] == es[i] && s[j] == es[j]);
        } else if j == p {
            assert(s[i] == es[i]);
        } else if i < p {
            assert(s[i] == es[i] && s[j] == es[j - 1]);
            lemma_seq_less_transitive(es[i].0, e.0, es[j - 1].0);
        } else if i == p {
            assert(s[j] == es[j - 1]);
        } else {
            assert(s[i] == es[i - 1] && s[j] == es[j - 1]);
        }
    }
}

/// Set the counter of `w` (present at `i`) to `c`.
fn set_at(es: &mut Vec<(String, u32)>, i: usize, c: u32)
    requires
        i < old(es).len(),
        sorted_words(entries_view(old(es)@)),
    ensures
        final(es)@.len() == old(es)@.len(),
        entries_view(final(es)@) == entries_view(old(es)@).update(i as int, (old(es)@[i as int].0@, c)),
        sorted_words(entries_view(final(es)@)),
{
    let word = es[i].0.clone();
    es.set(i, (word, c));
    assert(entries_view(es@) =~= entries_view(old(es)@).update(i as int, (old(es)@[i as int].0@, c)));
    let ghost s = entries_view(es@);
    let ghost o = entries_view(old(es)@);
    assert forall|a: int, b: int| 0 <= a < b < s.len() implies seq_less(#[trigger] s[a].0, #[trigger] s[b].0) by {
        assert(s[a].0 == o[a].0 && s[b].0 == o[b].0);
    }
}

/// Insert a counter for `word` (absent, belonging at `p`).
fn insert_at(es: &mut Vec<(String, u32)>, p: usize, word: &str, c: u32)
    requires
        p <= old(es).len(),
        sorted_words(entries_view(old(es)@)),
        forall|j: int| 0 <= j < p ==> seq_less(#[trigger] old(es)@[j].0@, word@),
        forall|j: int| p <= j < old(es).len() ==> seq_less(word@, #[trigger] old(es)@[j].0@),
    ensures
        entries_view(final(es)@) == entries_view(old(es)@).insert(p as int, (word@, c)),
        sorted_words(entries_view(final(es)@)),
{
    let ghost o = entries_view(old(es)@);
    proof {
        assert forall|j: int| 0 <= j < p implies seq_less(#[trigger] o[j].0, word@) by {
            assert(o[j].0 == old(es)@[j].0@);
        }
        assert forall|j: int| p <= j < o.len() implies seq_less(word@, #[trigger] o[j].0) by {
            assert(o[j].0 == old(es)@[j].0@);
        }
        lemma_insert_sorted(o, p as int, (word@, c));
    }
    let s = string_from(word);
    es.insert(p, (s, c));
    assert(entries_view(es@) =~= o.insert(p as int, (word@, c)));
}

proof fn lemma_update_view(es: Seq<(Seq<char>, u32)>, i: int, c: u32, w: Seq<char>)
    requires
        sorted_words(es),
        0 <= i < es.len(),
        sorted_words(es.update(i, (es[i].0, c))),
    ensures
        has_word(es.update(i, (es[i].0, c)), w) == has_word(es, w),
        word_count(es.update(i, (es[i].0, c)), w) == if w == es[i].0 {
            c
        } else {
            word_count(es, w)
        },
{
    let s = es.update(i, (es[i].0, c));
    if has_word(es, w) {
        let k = choose|k: int| 0 <= k < es.len() && #[trigger] es[k].0 == w;
        assert(s[k].0 == w);
        lemma_count_at(es, k);
        lemma_count_at(s, k);
    }
    if has_word(s, w) {
        let k = choose|k: int| 0 <= k < s.len() && #[trigger] s[k].0 == w;
        assert(es[k].0 == w);
    }
    if w == es[i].0 {
        lemma_count_at(s, i);
    }
}

proof fn lemma_insert_view(es: Seq<(Seq<char>, u32)>, p: int, e: (Seq<char>, u32), w: Seq<char>)
    requires
        sorted_words(es),
        0 <= p <= es.len(),
        sorted_words(es.insert(p, e)),
    ensures
        has_word(es.insert(p, e), w) == (has_word(es, w) || w == e.0),
        w == e.0 ==> word_count(es.insert(p, e), w) == e.1,
        w != e.0 ==> word_count(es.insert(p, e), w) == word_count(es, w),
{
    let s = es.insert(p, e);
    assert(s[p] == e);
    if has_word(es, w) {
        let k = choose|k: int| 0 <= k < es.len() && #[trigger] es[k].0 == w;
        let k2 = if k < p {
            k
        } else {
            k + 1
        };
        assert(s[k2] == es[k]);
        lemma_count_at(es, k);
        lemma_count_at(s, k2);
    }
    if has_word(s, w) {
        let k = choose|k: int| 0 <= k < s.len() && #[trigger] s[k].0 == w;
        if k < p {
            assert(es[k].0 == w);
        } else if k > p {
            assert(es[k - 1].0 == w);
        }
    }
    if w == e.0 {
        lemma_count_at(s, p);
    }
}

/// Add one to the counter of `word` (saturating), creating it at 1.
fn bump(es: &mut Vec<(String, u32)>, word: &str) -> (r: u32)
    requires
        sorted_words(entries_view(old(es)@)),
    ensures
        sorted_words(entries_view(final(es)@)),
        r == if has_word(entries_view(old(es)@), word@) {
            saturating_inc(word_count(entries_view(old(es)@), word@))
        } else {
            1
        },
        has_word(entries_view(final(es)@), word@),
        word_count(entries_view(final(es)@), word@) == r,
        forall|v: Seq<char>|
            v != word@ ==> (#[trigger] has_word(entries_view(final(es)@), v) == has_word(
                entries_view(old(es)@),
                v,
            ) && word_count(entries_view(final(es)@), v) == word_count(entries_view(old(es)@), v)),
{
    let ghost o = entries_view(es@);
    let w = chars_of(word);
    let (found, i) = locate(es, &w);
    if found {
        let c = es[i].1;
        let n = if c == u32::MAX {
            c
        } else {
            c + 1
        };
        set_at(es, i, n);
        proof {
            lemma_count_at(o, i as int);
            assert forall|v: Seq<char>| true implies #[trigger] has_word(entries_view(es@), v) == has_word(o, v)
                && word_count(entries_view(es@), v) == (if v == o[i as int].0 { n } else { word_count(o, v) }) by {
                lemma_update_view(o, i as int, n, v);
            }
        }
        n
    } else {
        proof {
            lemma_absent(o, w@, i as int);
        }
        insert_at(es, i, word, 1);
        proof {
            assert forall|v: Seq<char>| true implies #[trigger] has_word(entries_view(es@), v) == (has_word(o, v) || v == word@)
                && (v == word@ ==> word_count(entries_view(es@), v) == 1)
                && (v != word@ ==> word_count(entries_view(es@), v) == word_count(o, v)) by {
                lemma_insert_view(o, i as int, (word@, 1u32), v);
            }
        }
        1
    }
}

/// Set the counter of `word` to `c`, creating it if absent.
fn put(es: &mut Vec<(String, u32)>, word: &str, c: u32)
    requires
        sorted_words(entries_view(old(es)@)),
    ensures
        sorted_words(entries_view(final(es)@)),
        has_word(entries_view(final(es)@), word@),
        word_count(entries_view(final(es)@), word@) == c,
        forall|v: Seq<char>|
            v != word@ ==> (#[trigger] has_word(entries_view(final(es)@), v) == has_word(
                entries_view(old(es)@),
                v,
            ) && word_count(entries_view(final(es)@), v) == word_count(entries_view(old(es)@), v)),
{
    let ghost o = entries_view(es@);
    let w = chars_of(word);
    let (found, i) = locate(es, &w);
    if found {
        set_at(es, i, c);
        proof {
            assert forall|v: Seq<char>| true implies #[trigger] has_word(entries_view(es@), v) == has_word(o, v)
                && word_count(entries_view(es@), v) == (if v == o[i as int].0 { c } else { word_count(o, v) }) by {
                lemma_update_view(o, i as int, c, v);
            }
        }
    } else {
        proof {
            lemma_absent(o, w@, i as int);
        }
        insert_at(es, i, word, c);
        proof {
            assert forall|v: Seq<char>| true implies #[trigger] has_word(entries_view(es@), v) == (has_word(o, v) || v == word@)
                && (v == word@ ==> word_count(entries_view(es@), v) == c)
                && (v != word@ ==> word_count(entries_view(es@), v) == word_count(o, v)) by {
                lemma_insert_view(o, i as int, (word@, c), v);
            }
        }
    }
}

proof fn lemma_take_sorted(es: Seq<(Seq<char>, u32)>, j: int)
    requires
        sorted_words(es),
        0 <= j <= es.len(),
    ensures
        sorted_words(es.take(j)),
{
    let t = es.take(j);
    assert forall|a: int, b: int| 0 <= a < b < t.len() implies seq_less(#[trigger] t[a].0, #[trigger] t[b].0) by {
        assert(t[a] == es[a] && t[b] == es[b]);
    }
}

proof fn lemma_take_step(es: Seq<(Seq<char>, u32)>, j: int, w: Seq<char>)
    requires
        sorted_words(es),
        0 <= j < es.len(),
    ensures
        !has_word(es.take(j), es[j].0),
        has_word(es.take(j + 1), w) == (has_word(es.take(j), w) || w == es[j].0),
        w == es[j].0 ==> word_count(es.take(j + 1), w) == es[j].1,
        w != es[j].0 ==> word_count(es.take(j + 1), w) == word_count(es.take(j), w),
        es.take(j + 1).drop_last() == es.take(j),
        es.take(j + 1).last() == es[j],
{
    lemma_take_sorted(es, j + 1);
    lemma_take_sorted(es, j);
    assert(es.take(j + 1) =~= es.take(j).insert(j, es[j]));
    lemma_insert_view(es.take(j), j, es[j], w);
    assert(es.take(j + 1).drop_last() =~= es.take(j));
    if has_word(es.take(j), es[j].0) {
        let k = choose|k: int| 0 <= k < es.take(j).len() && #[trigger] es.take(j)[k].0 == es[j].0;
        assert(es[k].0 == es[j].0);
        lemma_unique(es, k, j);
    }
}

/// Max-merge `incoming` into `es`, returning how many counters rose.
fn merge_into(es: &mut Vec<(String, u32)>, incoming: &Vec<(String, u32)>) -> (r: usize)
    requires
        sorted_words(entries_view(old(es)@)),
        sorted_words(entries_view(incoming@)),
    ensures
        sorted_words(entries_view(final(es)@)),
        r == count_raises(entries_view(old(es)@), entries_view(incoming@)),
        r <= incoming.len(),
        forall|v: Seq<char>|
            #[trigger] has_word(entries_view(final(es)@), v) == merged_has(
                entries_view(old(es)@),
                entries_view(incoming@),
                v,
            ) && word_count(entries_view(final(es)@), v) == merged_count(
                entries_view(old(es)@),
                entries_view(incoming@),
                v,
            ),
{
    let ghost base = entries_view(es@);
    let ghost inc = entries_view(incoming@);
    let mut changed: usize = 0;
    let mut j: usize = 0;
    assert(inc.take(0) =~= Seq::<(Seq<char>, u32)>::empty());
    while j < incoming.len()
        invariant
            j <= incoming.len(),
            base == entries_view(old(es)@),
            inc == entries_view(incoming@),
            sorted_words(inc),
            sorted_words(entries_view(es@)),
            changed <= j,
            changed == count_raises(base, inc.take(j as int)),
            forall|v: Seq<char>|
                #[trigger] has_word(entries_view(es@), v) == merged_has(base, inc.take(j as int), v)
                    && word_count(entries_view(es@), v) == merged_count(base, inc.take(j as int), v),
        decreases incoming.len() - j,
    {
        let ghost cur = entries_view(es@);
        let ghost wj = inc[j as int].0;
        let incoming_count = incoming[j].1;
        proof {
            assert(inc[j as int] == (incoming@[j as int].0@, incoming_count));
            assert forall|v: Seq<char>| true implies #[trigger] has_word(inc.take(j + 1), v) == (
            has_word(inc.take(j as int), v) || v == wj) && (v == wj ==> word_count(inc.take(j + 1), v)
                == incoming_count) && (v != wj ==> word_count(inc.take(j + 1), v) == word_count(
                inc.take(j as int),
                v,
            )) by {
                lemma_take_step(inc, j as int, v);
            }
            lemma_take_step(inc, j as int, wj);
            assert(!has_word(inc.take(j as int), wj));
            assert(has_word(cur, wj) == has_word(base, wj));
            assert(word_count(cur, wj) == word_count(base, wj));
        }
        if incoming_count != 0 {
            let word = incoming[j].0.as_str();
            let w = chars_of(word);
            let (found, i) = locate(es, &w);
            if found {
                proof {
                    lemma_count_at(cur, i as int);
                }
                if incoming_count > es[i].1 {
                    set_at(es, i, incoming_count);
                    changed = changed + 1;
                    proof {
                        assert forall|v: Seq<char>| true implies #[trigger] has_word(entries_view(es@), v)
                            == has_word(cur, v) && word_count(entries_view(es@), v) == (if v == wj {
                            incoming_count
                        } else {
                            word_count(cur, v)
                        }) by {
                            lemma_update_view(cur, i as int, incoming_count, v);
                        }
                    }
                }
            } else {
                proof {
                    lemma_absent(cur, w@, i as int);
                }
                insert_at(es, i, word, incoming_count);
                changed = changed + 1;
                proof {
                    assert forall|v: Seq<char>| true implies #[trigger] has_word(entries_view(es@), v) == (
                    has_word(cur, v) || v == wj) && (v == wj ==> word_count(entries_view(es@), v)
                        == incoming_count) && (v != wj ==> word_count(entries_view(es@), v)
                        == word_count(cur, v)) by {
                        lemma_insert_view(cur, i as int, (wj, incoming_count), v);
                    }
                }
            }
        }
        proof {
            assert(inc.take(j + 1).drop_last() == inc.take(j as int));
            assert(inc.take(j + 1).last() == inc[j as int]);
        }
        j = j + 1;
    }
    assert(inc.take(incoming.len() as int) =~= inc);
    changed
}

/// A copy of the counters of one language.
fn copy_entries(es: &Vec<(String, u32)>) -> (r: Vec<(String, u32)>)
    ensures
        entries_view(r@) == entries_view(es@),
{
    let mut out: Vec<(String, u32)> = Vec::new();
    let mut i: usize = 0;
    while i < es.len()
        invariant
            i <= es.len(),
            entries_view(out@) == entries_view(es@).take(i as int),
            out.len() == i,
        decreases es.len() - i,
    {
        let word = es[i].0.clone();
        assert(word@ == es@[i as int].0@);
        out.push((word, es[i].1));
        assert(entries_view(out@)[i as int] == entries_view(es@)[i as int]);
        assert(entries_view(out@) =~= entries_view(es@).take(i + 1));
        i = i + 1;
    }
    assert(entries_view(es@).take(es.len() as int) =~= entries_view(es@));
    out
}

/// Locally learned acceptance counts, separated by keyboard language.
#[derive(Clone, Debug)]
pub struct WordUsage {
    en: Vec<(String, u32)>,
    ru: Vec<(String, u32)>,
}

impl WordUsage {
    /// The learned counters of `lang`, in word order.
    pub closed spec fn entries(&self, lang: Lang) -> Seq<(Seq<char>, u32)> {
        match lang {
            Lang::En => entries_view(self.en@),
            Lang::Ru => entries_view(self.ru@),
        }
    }

    /// Each language keeps its words strictly ordered.
    pub open spec fn wf(&self) -> bool {
        sorted_words(self.entries(Lang::En)) && sorted_words(self.entries(Lang::Ru))
    }

    /// No learned counters.
    pub fn new() -> (r: Self)
        ensures
            r.wf(),
            r.entries(Lang::En) == Seq::<(Seq<char>, u32)>::empty(),
            r.entries(Lang::Ru) == Seq::<(Seq<char>, u32)>::empty(),
    {
        let r = WordUsage { en: Vec::new(), ru: Vec::new() };
        assert(r.entries(Lang::En) =~= Seq::<(Seq<char>, u32)>::empty());
        assert(r.entries(Lang::Ru) =~= Seq::<(Seq<char>, u32)>::empty());
        r
    }

    /// Returns the learned acceptance count for `word`.
    pub fn count(&self, word: &str, lang: Lang) -> (r: u32)
        requires
            self.wf(),
        ensures
            r == word_count(self.entries(lang), word@),
    {
        let w = chars_of(word);
        let es = match lang {
            Lang::En => &self.en,
            Lang::Ru => &self.ru,
        };
        assert(entries_view(es@) == self.entries(lang));
        let (found, i) = locate(es, &w);
        if found {
            proof {
                lemma_count_at(self.entries(lang), i as int);
            }
            es[i].1
        } else {
            proof {
                lemma_absent(self.entries(lang), w@, i as int);
            }
            0
        }
    }
    /// Increments `word` without overflowing and returns its new count.
    pub fn increment(&mut self, word: &str, lang: Lang) -> (r: u32)
        requires
            old(self).wf(),
        ensures
            final(self).wf(),
            r == if has_word(old(self).entries(lang), word@) {
                saturating_inc(word_count(old(self).entries(lang), word@))
            } else {
                1
            },
            has_word(final(self).entries(lang), word@),
            word_count(final(self).entries(lang), word@) == r,
            forall|v: Seq<char>|
                v != word@ ==> (#[trigger] has_word(final(self).entries(lang), v) == has_word(
                    old(self).entries(lang),
                    v,
                ) && word_count(final(self).entries(lang), v) == word_count(old(self).entries(lang), v)),
            final(self).entries(lang.opposite()) == old(self).entries(lang.opposite()),
    {
        match lang {
            Lang::En => bump(&mut self.en, word),
            Lang::Ru => bump(&mut self.ru, word),
        }
    }

    /// Sets the learned count of `word` to `count`, creating it if absent.
    pub fn set_count(&mut self, word: &str, lang: Lang, count: u32)
        requires
            old(self).wf(),
        ensures
            final(self).wf(),
            has_word(final(self).entries(lang), word@),
            word_count(final(self).entries(lang), word@) == count,
            forall|v: Seq<char>|
                v != word@ ==> (#[trigger] has_word(final(self).entries(lang), v) == has_word(
                    old(self).entries(lang),
                    v,
                ) && word_count(final(self).entries(lang), v) == word_count(old(self).entries(lang), v)),
            final(self).entries(lang.opposite()) == old(self).entries(lang.opposite()),
    {
        match lang {
            Lang::En => put(&mut self.en, word, count),
            Lang::Ru => put(&mut self.ru, word, count),
        }
    }

    /// Whether `word` has a learned counter (even a zero one).
    pub fn contains(&self, word: &str, lang: Lang) -> (r: bool)
        requires
            self.wf(),
        ensures
            r == has_word(self.entries(lang), word@),
    {
        let w = chars_of(word);
        let es = match lang {
            Lang::En => &self.en,
            Lang::Ru => &self.ru,
        };
        assert(entries_view(es@) == self.entries(lang));
        let (found, i) = locate(es, &w);
        if !found {
            proof {
                lemma_absent(self.entries(lang), w@, i as int);
            }
        } else {
            assert(self.entries(lang)[i as int].0 == w@);
        }
        found
    }

    /// An independent copy with the same counters.
    pub fn duplicate(&self) -> (r: Self)
        ensures
            r.entries(Lang::En) == self.entries(Lang::En),
            r.entries(Lang::Ru) == self.entries(Lang::Ru),
    {
        WordUsage { en: copy_entries(&self.en), ru: copy_entries(&self.ru) }
    }

    /// Merges the greater count for every word and returns the number changed.
    pub fn merge_max(&mut self, other: &Self) -> (r: usize)
        requires
            old(self).wf(),
            other.wf(),
            other.entries(Lang::En).len() + other.entries(Lang::Ru).len() <= usize::MAX,
        ensures
            final(self).wf(),
            r == count_raises(old(self).entries(Lang::En), other.entries(Lang::En)) + count_raises(
                old(self).entries(Lang::Ru),
                other.entries(Lang::Ru),
            ),
            forall|lang: Lang, v: Seq<char>|
                #[trigger] has_word(final(self).entries(lang), v) == merged_has(
                    old(self).entries(lang),
                    other.entries(lang),
                    v,
                ) && word_count(final(self).entries(lang), v) == merged_count(
                    old(self).entries(lang),
                    other.entries(lang),
                    v,
                ),
    {
        let a = merge_into(&mut self.en, &other.en);
        let b = merge_into(&mut self.ru, &other.ru);
        assert forall|lang: Lang, v: Seq<char>|
            #[trigger] has_word(self.entries(lang), v) == merged_has(
                old(self).entries(lang),
                other.entries(lang),
                v,
            ) && word_count(self.entries(lang), v) == merged_count(
                old(self).entries(lang),
                other.entries(lang),
                v,
            ) by {
            match lang {
                Lang::En => {},
                Lang::Ru => {},
            }
        }
        a + b
    }

    /// The counters of one language in deterministic word order.
    pub fn iter_lang(&self, lang: Lang) -> (r: Vec<(String, u32)>)
        ensures
            entries_view(r@) == self.entries(lang),
    {
        match lang {
            Lang::En => copy_entries(&self.en),
            Lang::Ru => copy_entries(&self.ru),
        }
    }

    /// The counters of both languages in deterministic language and word order.
    pub fn iter(&self) -> (r: Vec<(Lang, String, u32)>)
        ensures
            r@.map_values(|t: (Lang, String, u32)| (t.0, t.1@, t.2)) == tagged(
                Lang::En,
                self.entries(Lang::En),
            ) + tagged(Lang::Ru, self.entries(Lang::Ru)),
    {
        let mut out: Vec<(Lang, String, u32)> = Vec::new();
        let ghost en = tagged(Lang::En, self.entries(Lang::En));
        let ghost ru = tagged(Lang::Ru, self.entries(Lang::Ru));
        let mut i: usize = 0;
        while i < self.en.len()
            invariant
                i <= self.en.len(),
                en == tagged(Lang::En, self.entries(Lang::En)),
                out@.map_values(|t: (Lang, String, u32)| (t.0, t.1@, t.2)) == en.take(i as int),
                out.len() == i,
                en.len() == self.en.len(),
            decreases self.en.len() - i,
        {
            let word = self.en[i].0.clone();
            assert(word@ == self.en@[i as int].0@);
            out.push((Lang::En, word, self.en[i].1));
            assert(self.entries(Lang::En)[i as int] == entry_view(self.en@[i as int]));
            assert(out@.map_values(|t: (Lang, String, u32)| (t.0, t.1@, t.2)) =~= en.take(i + 1));
            i = i + 1;
        }
        assert(en.take(self.en.len() as int) =~= en);
        let mut k: usize = 0;
        while k < self.ru.len()
            invariant
                k <= self.ru.len(),
                en == tagged(Lang::En, self.entries(Lang::En)),
                ru == tagged(Lang::Ru, self.entries(Lang::Ru)),
                out@.map_values(|t: (Lang, String, u32)| (t.0, t.1@, t.2)) == en + ru.take(k as int),
                out.len() == self.en.len() + k,
                en.len() == self.en.len(),
                ru.len() == self.ru.len(),
            decreases self.ru.len() - k,
        {
            let ghost old_out = out@;
            let word = self.ru[k].0.clone();
            assert(word@ == self.ru@[k as int].0@);
            out.push((Lang::Ru, word, self.ru[k].1));
            assert(self.entries(Lang::Ru)[k as int] == entry_view(self.ru@[k as int]));
            let ghost mapped = out@.map_values(|t: (Lang, String, u32)| (t.0, t.1@, t.2));
            assert(mapped[(self.en.len() + k) as int] == ru[k as int]);
            assert forall|m: int| 0 <= m < self.en.len() + k implies mapped[m] == (en + ru.take(k as int))[m] by {
                assert(out@[m] == old_out[m]);
            }
            assert(out@.map_values(|t: (Lang, String, u32)| (t.0, t.1@, t.2)) =~= en + ru.take(k + 1));
            k = k + 1;
        }
        assert(ru.take(self.ru.len() as int) =~= ru);
        out
    }
}

/// The counters of one language tagged with the language.
pub open spec fn tagged(lang: Lang, es: Seq<(Seq<char>, u32)>) -> Seq<(Lang, Seq<char>, u32)> {
    es.map_values(|e: (Seq<char>, u32)| (lang, e.0, e.1))
}

proof fn lemma_no_raises(base: Seq<(Seq<char>, u32)>, es: Seq<(Seq<char>, u32)>)
    requires
        forall|i: int| 0 <= i < es.len() ==> !raises(base, #[trigger] es[i]),
    ensures
        count_raises(base, es) == 0,
    decreases es.len(),
{
    if es.len() > 0 {
        let init = es.drop_last();
        assert forall|i: int| 0 <= i < init.len() implies !raises(base, #[trigger] init[i]) by {
            assert(init[i] == es[i]);
        }
        lemma_no_raises(base, init);
        assert(!raises(base, es[es.len() - 1]));
    }
}

/// A max-merge keeps the greater count: no local counter goes down, and every
/// imported counter is reached.
pub proof fn law_merge_keeps_greater(
    base: Seq<(Seq<char>, u32)>,
    incoming: Seq<(Seq<char>, u32)>,
    v: Seq<char>,
)
    ensures
        merged_count(base, incoming, v) >= word_count(base, v),
        has_word(incoming, v) ==> merged_count(base, incoming, v) >= word_count(incoming, v),
        has_word(base, v) ==> merged_has(base, incoming, v),
{
}

/// Merging the same counters again changes nothing: after a max-merge of
/// `incoming`, none of its counters raises a local one.
pub proof fn law_merge_idempotent(
    base: Seq<(Seq<char>, u32)>,
    incoming: Seq<(Seq<char>, u32)>,
    after: Seq<(Seq<char>, u32)>,
)
    requires
        sorted_words(incoming),
        forall|v: Seq<char>|
            #[trigger] has_word(after, v) == merged_has(base, incoming, v) && word_count(after, v)
                == merged_count(base, incoming, v),
    ensures
        count_raises(after, incoming) == 0,
{
    assert forall|i: int| 0 <= i < incoming.len() implies !raises(after, #[trigger] incoming[i]) by {
        let w = incoming[i].0;
        lemma_count_at(incoming, i);
        assert(has_word(after, w) == merged_has(base, incoming, w));
    }
    lemma_no_raises(after, incoming);
}

impl Default for WordUsage {
    fn default() -> (r: Self)
        ensures
            r.wf(),
            r.entries(Lang::En) == Seq::<(Seq<char>, u32)>::empty(),
            r.entries(Lang::Ru) == Seq::<(Seq<char>, u32)>::empty(),
    {
        WordUsage::new()
    }
}

} // verus!
