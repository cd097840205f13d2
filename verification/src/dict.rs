//! Dictionary lookup over the built-in word lists.

use vstd::prelude::*;

use crate::layout::Lang;
use crate::tables::{dict_entry, dict_len, dict_rank, dict_size, dict_word};
use crate::text::{
    chars_eq, chars_of, compare_chars, lemma_seq_less_irreflexive, lemma_seq_less_transitive,
    seq_less, starts_with, Order,
};
use crate::unicode::{str_lowercase, lowercase_str};
use crate::usage::{word_count, WordUsage};

verus! {

broadcast use vstd::string::group_string_axioms;

/// `w` is a built-in word of `lang`.
pub open spec fn in_dictionary(w: Seq<char>, lang: Lang) -> bool {
    exists|i: int| 0 <= i < dict_size(lang) && #[trigger] dict_word(lang, i) == w
}

/// True if `word` (case-insensitively) is in the embedded dictionary for `lang`.
pub fn contains(word: &str, lang: Lang) -> (r: bool)
    ensures
        r == in_dictionary(lowercase_str(word@), lang),
{
    let lower = str_lowercase(word);
    let w = chars_of(lower.as_str());
    let n = dict_len(lang);
    let mut i: usize = 0;
    while i < n
        invariant
            i <= n,
            n == dict_size(lang),
            w@ == lowercase_str(word@),
            forall|j: int| 0 <= j < i ==> dict_word(lang, j) != w@,
        decreases n - i,
    {
        let (entry, _) = dict_entry(lang, i);
        let e = chars_of(entry);
        if chars_eq(&e, &w) {
            return true;
        }
        i = i + 1;
    }
    false
}

/// `w` strictly extends `prefix`.
pub open spec fn strictly_extends(w: Seq<char>, prefix: Seq<char>) -> bool {
    prefix.is_prefix_of(w) && w.len() > prefix.len()
}

/// Dictionary word `i` is offered as a completion of `prefix`: it strictly
/// extends the prefix and its learned count reaches `minimum_count`.
pub open spec fn is_candidate(
    lang: Lang,
    i: int,
    prefix: Seq<char>,
    learned: Seq<(Seq<char>, u32)>,
    minimum_count: u32,
) -> bool {
    &&& 0 <= i < dict_size(lang)
    &&& strictly_extends(dict_word(lang, i), prefix)
    &&& word_count(learned, dict_word(lang, i)) >= minimum_count
}

/// Some dictionary word is a completion candidate for `prefix`.
pub open spec fn has_candidate(lang: Lang, prefix: Seq<char>, learned: Seq<(Seq<char>, u32)>, minimum_count: u32) -> bool {
    exists|i: int| is_candidate(lang, i, prefix, learned, minimum_count)
}

/// `w` is a best-ranked completion candidate for `prefix`: no other
/// candidate ranks before it.
pub open spec fn best_completion(
    lang: Lang,
    prefix: Seq<char>,
    learned: Seq<(Seq<char>, u32)>,
    minimum_count: u32,
    w: Seq<char>,
) -> bool {
    exists|i: int|
        {
            &&& is_candidate(lang, i, prefix, learned, minimum_count)
            &&& dict_word(lang, i) == w
            &&& forall|j: int|
                is_candidate(lang, j, prefix, learned, minimum_count) ==> !word_ranks_before(lang, learned, j, i)
        }
}

/// Ranking of completions: a higher learned count first, then a more
/// frequent word (lower rank), then the earlier word.
pub open spec fn ranks_before(c1: u32, r1: u16, w1: Seq<char>, c2: u32, r2: u16, w2: Seq<char>) -> bool {
    c1 > c2 || (c1 == c2 && (r1 < r2 || (r1 == r2 && seq_less(w1, w2))))
}

/// Candidate `i` ranks before candidate `j`.
pub open spec fn word_ranks_before(lang: Lang, learned: Seq<(Seq<char>, u32)>, i: int, j: int) -> bool {
    ranks_before(
        word_count(learned, dict_word(lang, i)),
        dict_rank(lang, i),
        dict_word(lang, i),
        word_count(learned, dict_word(lang, j)),
        dict_rank(lang, j),
        dict_word(lang, j),
    )
}

proof fn lemma_ranks_before_transitive(
    c1: u32,
    r1: u16,
    w1: Seq<char>,
    c2: u32,
    r2: u16,
    w2: Seq<char>,
    c3: u32,
    r3: u16,
    w3: Seq<char>,
)
    requires
        ranks_before(c1, r1, w1, c2, r2, w2),
        ranks_before(c2, r2, w2, c3, r3, w3),
    ensures
        ranks_before(c1, r1, w1, c3, r3, w3),
{
    if c1 == c2 && c2 == c3 && r1 == r2 && r2 == r3 {
        lemma_seq_less_transitive(w1, w2, w3);
    }
}

/// Best ranked word that strictly extends lowercase `prefix`, or `None`.
///
/// Learned acceptance count takes precedence over static frequency rank.
/// When `minimum_count` is non-zero, only learned words meeting that threshold
/// are considered.
pub fn complete(prefix: &str, lang: Lang, usage: &WordUsage, minimum_count: u32) -> (r: Option<
    &'static str,
>)
    requires
        usage.wf(),
    ensures
        r is None <==> (prefix@.len() == 0 || !has_candidate(lang, prefix@, usage.entries(lang), minimum_count)),
        r matches Some(w) ==> best_completion(lang, prefix@, usage.entries(lang), minimum_count, w@),
{
    let p = chars_of(prefix);
    if p.len() == 0 {
        return None;
    }
    let ghost learned = usage.entries(lang);
    let n = dict_len(lang);
    let mut best: Option<(u32, u16, &'static str, Vec<char>)> = None;
    let ghost mut best_index: int = 0;
    let mut i: usize = 0;
    while i < n
        invariant
            i <= n,
            n == dict_size(lang),
            p@ == prefix@,
            p@.len() > 0,
            usage.wf(),
            learned == usage.entries(lang),
            best is None ==> forall|j: int|
                0 <= j < i ==> !is_candidate(lang, j, p@, learned, minimum_count),
            best matches Some(b) ==> {
                &&& 0 <= best_index < i
                &&& is_candidate(lang, best_index, p@, learned, minimum_count)
                &&& b.0 == word_count(learned, dict_word(lang, best_index))
                &&& b.1 == dict_rank(lang, best_index)
                &&& b.2@ == dict_word(lang, best_index)
                &&& b.3@ == dict_word(lang, best_index)
                &&& forall|j: int|
                    0 <= j < i && is_candidate(lang, j, p@, learned, minimum_count)
                        ==> !word_ranks_before(lang, learned, j, best_index)
            },
        decreases n - i,
    {
        let (word, rank) = dict_entry(lang, i);
        let wc = chars_of(word);
        if starts_with(&wc, &p) && wc.len() > p.len() {
            let count = usage.count(word, lang);
            if count >= minimum_count {
                let take = match &best {
                    None => true,
                    Some(b) => {
                        if count != b.0 {
                            count > b.0
                        } else if rank != b.1 {
                            rank < b.1
                        } else {
                            match compare_chars(&wc, &b.3) {
                                Order::Less => true,
                                _ => false,
                            }
                        }
                    },
                };
                proof {
                    lemma_seq_less_irreflexive(wc@);
                }
                if take {
                    proof {
                        if best is Some {
                            let bi = best_index;
                            let b = best->0;
                            assert(ranks_before(count, rank, wc@, b.0, b.1, b.3@));
                            assert(word_ranks_before(lang, learned, i as int, bi));
                            assert forall|j: int|
                                0 <= j < i + 1 && is_candidate(lang, j, p@, learned, minimum_count)
                                    implies !word_ranks_before(lang, learned, j, i as int) by {
                                if j == i {
                                    lemma_seq_less_irreflexive(dict_word(lang, i as int));
                                }
                                if j < i && word_ranks_before(lang, learned, j, i as int) {
                                    assert(!word_ranks_before(lang, learned, j, bi));
                                    lemma_ranks_before_transitive(
                                        word_count(learned, dict_word(lang, j)),
                                        dict_rank(lang, j),
                                        dict_word(lang, j),
                                        count,
                                        rank,
                                        wc@,
                                        word_count(learned, dict_word(lang, bi)),
                                        dict_rank(lang, bi),
                                        dict_word(lang, bi),
                                    );
                                }
                            }
                        } else {
                            assert forall|j: int|
                                0 <= j < i + 1 && is_candidate(lang, j, p@, learned, minimum_count)
                                    implies !word_ranks_before(lang, learned, j, i as int) by {
                                if j < i {
                                    assert(!is_candidate(lang, j, p@, learned, minimum_count));
                                } else {
                                    assert(j == i);
                                    lemma_seq_less_irreflexive(dict_word(lang, i as int));
                                }
                            }
                        }
                        best_index = i as int;
                    }
                    best = Some((count, rank, word, wc));
                }
            }
        }
        i = i + 1;
    }
    match best {
        None => None,
        Some(b) => Some(b.2),
    }
}

} // verus!
