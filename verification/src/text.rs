//! Character-sequence helpers shared by the modules: building strings,
//! comparing, prefixes, whitespace trimming and ASCII case folding.

use vstd::prelude::*;
use vstd::std_specs::iter::IteratorSpec;

verus! {

broadcast use vstd::string::group_string_axioms;

/// Result of comparing two character sequences.
#[derive(Clone, Copy, PartialEq, Eq, Debug, Structural)]
pub enum Order {
    Less,
    Equal,
    Greater,
}

/// Calls `String::push`. Claimed: `c` is appended to the string.
#[verifier::external_body]
pub(crate) fn push_char(s: &mut String, c: char)
    ensures
        final(s)@ == old(s)@.push(c),
{
    s.push(c);
}

/// Appends `t` to the string.
pub(crate) fn push_str(s: &mut String, t: &str)
    ensures
        final(s)@ == old(s)@ + t@,
{
    s.append(t);
}

/// The chars of `s`, in order.
pub fn chars_of(s: &str) -> (r: Vec<char>)
    ensures
        r@ == s@,
{
    let mut out: Vec<char> = Vec::new();
    let mut it = s.chars();
    let ghost total = s@;
    let ghost mut idx: int = 0;
    loop
        invariant
            out@ == total.take(idx),
            it.remaining() == total.skip(idx),
            0 <= idx <= total.len(),
            it.obeys_prophetic_iter_laws(),
        ensures
            out@ == total,
        decreases total.len() - idx,
    {
        match it.next() {
            Some(c) => {
                out.push(c);
                proof {
                    assert(total.take(idx + 1) =~= total.take(idx).push(c));
                    idx = idx + 1;
                }
            },
            None => {
                assert(total.take(idx) =~= total);
                break ;
            },
        }
    }
    out
}

/// A fresh vector holding the chars of `v`.
pub fn copy_chars(v: &[char]) -> (r: Vec<char>)
    ensures
        r@ == v@,
{
    let mut out: Vec<char> = Vec::new();
    let mut i: usize = 0;
    while i < v.len()
        invariant
            i <= v.len(),
            out@ == v@.take(i as int),
        decreases v.len() - i,
    {
        out.push(v[i]);
        assert(v@.take(i + 1) =~= v@.take(i as int).push(v@[i as int]));
        i = i + 1;
    }
    assert(v@.take(v.len() as int) =~= v@);
    out
}

/// A string holding exactly the chars of `v`.
pub fn string_of(v: &[char]) -> (r: String)
    ensures
        r@ == v@,
{
    let mut out = String::new();
    let mut i: usize = 0;
    while i < v.len()
        invariant
            i <= v.len(),
            out@ == v@.take(i as int),
        decreases v.len() - i,
    {
        push_char(&mut out, v[i]);
        assert(v@.take(i + 1) =~= v@.take(i as int).push(v@[i as int]));
        i = i + 1;
    }
    assert(v@.take(v.len() as int) =~= v@);
    out
}

/// A string holding the single char `c`.
pub fn string_of_char(c: char) -> (r: String)
    ensures
        r@ == seq![c],
{
    let mut out = String::new();
    push_char(&mut out, c);
    out
}

/// A string holding the chars of `s`.
pub fn string_from(s: &str) -> (r: String)
    ensures
        r@ == s@,
{
    let mut out = String::new();
    push_str(&mut out, s);
    assert(out@ =~= s@);
    out
}

/// Element-wise equality of two char slices.
pub fn chars_eq(a: &[char], b: &[char]) -> (r: bool)
    ensures
        r == (a@ == b@),
{
    if a.len() != b.len() {
        return false;
    }
    let mut i: usize = 0;
    while i < a.len()
        invariant
            a.len() == b.len(),
            i <= a.len(),
            forall|j: int| 0 <= j < i ==> a@[j] == b@[j],
        decreases a.len() - i,
    {
        if a[i] != b[i] {
            return false;
        }
        i = i + 1;
    }
    assert(a@ =~= b@);
    true
}

/// `a` sorts strictly before `b` in lexicographic order of code points
/// (the order of `str` comparison, since UTF-8 preserves code-point order).
pub open spec fn seq_less(a: Seq<char>, b: Seq<char>) -> bool {
    exists|i: int|
        #![trigger a.take(i), b.take(i)]
        0 <= i <= a.len() && i <= b.len() && a.take(i) == b.take(i) && ((i < a.len() && i
            < b.len() && (a[i] as int) < (b[i] as int)) || (i == a.len() && i < b.len()))
}

proof fn lemma_take_agree(a: Seq<char>, b: Seq<char>, i: int, j: int)
    requires
        0 <= j <= i <= a.len(),
        i <= b.len(),
        a.take(i) == b.take(i),
    ensures
        a.take(j) == b.take(j),
        forall|k: int| 0 <= k < i ==> a[k] == b[k],
{
    assert forall|k: int| 0 <= k < i implies a[k] == b[k] by {
        assert(a.take(i)[k] == a[k]);
        assert(b.take(i)[k] == b[k]);
    }
    assert(a.take(j) =~= b.take(j));
}

/// No sequence sorts before itself.
pub proof fn lemma_seq_less_irreflexive(a: Seq<char>)
    ensures
        !seq_less(a, a),
{
}

/// Any two sequences are equal or one sorts before the other.
pub proof fn lemma_seq_less_total(a: Seq<char>, b: Seq<char>)
    ensures
        a == b || seq_less(a, b) || seq_less(b, a),
        !(seq_less(a, b) && seq_less(b, a)),
{
    if seq_less(a, b) && seq_less(b, a) {
        let i = choose|i: int|
            #![trigger a.take(i), b.take(i)]
            0 <= i <= a.len() && i <= b.len() && a.take(i) == b.take(i) && ((i < a.len() && i
                < b.len() && (a[i] as int) < (b[i] as int)) || (i == a.len() && i < b.len()));
        let j = choose|j: int|
            #![trigger b.take(j), a.take(j)]
            0 <= j <= b.len() && j <= a.len() && b.take(j) == a.take(j) && ((j < b.len() && j
                < a.len() && (b[j] as int) < (a[j] as int)) || (j == b.len() && j < a.len()));
        if i < j {
            lemma_take_agree(a, b, j, j);
        } else if j < i {
            lemma_take_agree(a, b, i, i);
        }
        assert(false);
    }
    lemma_compare_from(a, b, 0);
}

proof fn lemma_compare_from(a: Seq<char>, b: Seq<char>, k: int)
    requires
        0 <= k <= a.len(),
        k <= b.len(),
        forall|m: int| 0 <= m < k ==> a[m] == b[m],
    ensures
        a == b || seq_less(a, b) || seq_less(b, a),
    decreases a.len() - k,
{
    if k < a.len() && k < b.len() {
        if a[k] != b[k] {
            assert(a.take(k) =~= b.take(k));
            if (a[k] as int) < (b[k] as int) {
                assert(seq_less(a, b));
            } else {
                assert(b.take(k) == a.take(k));
                assert(seq_less(b, a));
            }
        } else {
            lemma_compare_from(a, b, k + 1);
        }
    } else {
        assert(a.take(k) =~= b.take(k));
        if a.len() < b.len() {
            assert(seq_less(a, b));
        } else if b.len() < a.len() {
            assert(b.take(k) == a.take(k));
            assert(seq_less(b, a));
        } else {
            assert(a =~= b);
        }
    }
}

/// The order is transitive.
pub proof fn lemma_seq_less_transitive(a: Seq<char>, b: Seq<char>, c: Seq<char>)
    requires
        seq_less(a, b),
        seq_less(b, c),
    ensures
        seq_less(a, c),
{
    let i = choose|i: int|
        #![trigger a.take(i), b.take(i)]
        0 <= i <= a.len() && i <= b.len() && a.take(i) == b.take(i) && ((i < a.len() && i
            < b.len() && (a[i] as int) < (b[i] as int)) || (i == a.len() && i < b.len()));
    let j = choose|j: int|
        #![trigger b.take(j), c.take(j)]
        0 <= j <= b.len() && j <= c.len() && b.take(j) == c.take(j) && ((j < b.len() && j
            < c.len() && (b[j] as int) < (c[j] as int)) || (j == b.len() && j < c.len()));
    lemma_take_agree(a, b, i, i);
    lemma_take_agree(b, c, j, j);
    let k = if i < j {
        i
    } else {
        j
    };
    assert(a.take(k) =~= c.take(k));
    assert(seq_less(a, c));
}

/// Lexicographic comparison of two char slices.
pub fn compare_chars(a: &[char], b: &[char]) -> (r: Order)
    ensures
        r == Order::Less <==> seq_less(a@, b@),
        r == Order::Equal <==> a@ == b@,
        r == Order::Greater <==> seq_less(b@, a@),
{
    proof {
        lemma_seq_less_total(a@, b@);
        lemma_seq_less_irreflexive(a@);
    }
    let n = if a.len() < b.len() {
        a.len()
    } else {
        b.len()
    };
    let mut i: usize = 0;
    while i < n
        invariant
            i <= n,
            n <= a.len(),
            n <= b.len(),
            forall|m: int| 0 <= m < i ==> a@[m] == b@[m],
        decreases n - i,
    {
        if a[i] != b[i] {
            proof {
                lemma_seq_less_total(a@, b@);
            }
            assert(a@.take(i as int) =~= b@.take(i as int));
            if a[i] < b[i] {
                assert(seq_less(a@, b@));
                return Order::Less;
            } else {
                assert(b@.take(i as int) == a@.take(i as int));
                assert(seq_less(b@, a@));
                return Order::Greater;
            }
        }
        i = i + 1;
    }
    assert(a@.take(n as int) =~= b@.take(n as int));
    if a.len() < b.len() {
        assert(seq_less(a@, b@));
        Order::Less
    } else if b.len() < a.len() {
        assert(b@.take(n as int) == a@.take(n as int));
        assert(seq_less(b@, a@));
        Order::Greater
    } else {
        assert(a@ =~= b@);
        Order::Equal
    }
}

/// `p` is a prefix of `w`.
pub fn starts_with(w: &[char], p: &[char]) -> (r: bool)
    ensures
        r == p@.is_prefix_of(w@),
{
    if p.len() > w.len() {
        return false;
    }
    let mut i: usize = 0;
    while i < p.len()
        invariant
            p.len() <= w.len(),
            i <= p.len(),
            forall|j: int| 0 <= j < i ==> p@[j] == w@[j],
        decreases p.len() - i,
    {
        if p[i] != w[i] {
            assert(w@.subrange(0, p@.len() as int)[i as int] != p@[i as int]);
            return false;
        }
        i = i + 1;
    }
    assert(p@ =~= w@.subrange(0, p@.len() as int));
    true
}

/// `char::is_whitespace`: the Unicode `White_Space` property.
pub open spec fn is_white_space(c: char) -> bool {
    let u = c as u32;
    (0x9 <= u && u <= 0xd) || u == 0x20 || u == 0x85 || u == 0xa0 || u == 0x1680 || (0x2000 <= u
        && u <= 0x200a) || u == 0x2028 || u == 0x2029 || u == 0x202f || u == 0x205f || u == 0x3000
}

/// Whether `c` has the Unicode `White_Space` property.
pub fn is_whitespace(c: char) -> (r: bool)
    ensures
        r == is_white_space(c),
{
    let u = c as u32;
    (0x9 <= u && u <= 0xd) || u == 0x20 || u == 0x85 || u == 0xa0 || u == 0x1680 || (0x2000 <= u
        && u <= 0x200a) || u == 0x2028 || u == 0x2029 || u == 0x202f || u == 0x205f || u == 0x3000
}

/// `s` without its leading white space.
pub open spec fn trim_start(s: Seq<char>) -> Seq<char>
    decreases s.len(),
{
    if s.len() > 0 && is_white_space(s[0]) {
        trim_start(s.drop_first())
    } else {
        s
    }
}

/// `s` without its trailing white space.
pub open spec fn trim_end(s: Seq<char>) -> Seq<char>
    decreases s.len(),
{
    if s.len() > 0 && is_white_space(s.last()) {
        trim_end(s.drop_last())
    } else {
        s
    }
}

/// `str::trim`: `s` without leading and trailing white space.
pub open spec fn trim(s: Seq<char>) -> Seq<char> {
    trim_end(trim_start(s))
}

proof fn lemma_trim_start_skip(s: Seq<char>, i: int)
    requires
        0 <= i < s.len(),
        is_white_space(s[i]),
    ensures
        trim_start(s.skip(i)) == trim_start(s.skip(i + 1)),
{
    assert(s.skip(i).drop_first() =~= s.skip(i + 1));
}

proof fn lemma_trim_end_take(s: Seq<char>, j: int)
    requires
        0 < j <= s.len(),
        is_white_space(s[j - 1]),
    ensures
        trim_end(s.take(j)) == trim_end(s.take(j - 1)),
{
    assert(s.take(j).drop_last() =~= s.take(j - 1));
}

/// The chars of `s` with leading and trailing white space removed.
pub fn trimmed(s: &[char]) -> (r: Vec<char>)
    ensures
        r@ == trim(s@),
{
    let mut i: usize = 0;
    assert(s@.skip(0) =~= s@);
    while i < s.len() && is_whitespace(s[i])
        invariant
            i <= s.len(),
            trim_start(s@) == trim_start(s@.skip(i as int)),
        decreases s.len() - i,
    {
        proof {
            lemma_trim_start_skip(s@, i as int);
        }
        i = i + 1;
    }
    let ghost start = s@.skip(i as int);
    assert(trim_start(start) == start);
    let mut j: usize = s.len();
    assert(start.take(start.len() as int) =~= start);
    while j > i && is_whitespace(s[j - 1])
        invariant
            i <= j <= s.len(),
            start == s@.skip(i as int),
            trim_end(start) == trim_end(start.take(j - i)),
        decreases j,
    {
        proof {
            lemma_trim_end_take(start, (j - i) as int);
            assert(start.take(j - i - 1) == start.take((j - 1 - i) as int));
        }
        j = j - 1;
    }
    let ghost kept = start.take(j - i);
    assert(trim_end(kept) == kept);
    let mut out: Vec<char> = Vec::new();
    let mut k: usize = i;
    while k < j
        invariant
            i <= k <= j,
            j <= s.len(),
            out@ == s@.subrange(i as int, k as int),
        decreases j - k,
    {
        out.push(s[k]);
        assert(s@.subrange(i as int, k + 1) =~= s@.subrange(i as int, k as int).push(s@[k as int]));
        k = k + 1;
    }
    assert(out@ =~= kept);
    out
}

/// `char::to_ascii_uppercase`.
pub open spec fn ascii_upper(c: char) -> char {
    if 'a' <= c && c <= 'z' {
        ((c as u32) - 32) as char
    } else {
        c
    }
}

/// `char::to_ascii_lowercase`.
pub open spec fn ascii_lower(c: char) -> char {
    if 'A' <= c && c <= 'Z' {
        ((c as u32) + 32) as char
    } else {
        c
    }
}

/// `str::to_ascii_uppercase`.
pub open spec fn ascii_upper_seq(s: Seq<char>) -> Seq<char> {
    s.map_values(|c: char| ascii_upper(c))
}

/// `str::eq_ignore_ascii_case`.
pub open spec fn eq_ignore_ascii_case(a: Seq<char>, b: Seq<char>) -> bool {
    a.map_values(|c: char| ascii_lower(c)) == b.map_values(|c: char| ascii_lower(c))
}

/// ASCII uppercase of one char.
pub fn to_ascii_upper(c: char) -> (r: char)
    ensures
        r == ascii_upper(c),
{
    if 'a' <= c && c <= 'z' {
        ((c as u32 - 32) as u8) as char
    } else {
        c
    }
}

/// ASCII lowercase of one char.
pub fn to_ascii_lower(c: char) -> (r: char)
    ensures
        r == ascii_lower(c),
{
    if 'A' <= c && c <= 'Z' {
        ((c as u32 + 32) as u8) as char
    } else {
        c
    }
}

/// The chars of `s` in ASCII uppercase.
pub fn ascii_uppercase(s: &[char]) -> (r: Vec<char>)
    ensures
        r@ == ascii_upper_seq(s@),
{
    let mut out: Vec<char> = Vec::new();
    let mut i: usize = 0;
    while i < s.len()
        invariant
            i <= s.len(),
            out@ == ascii_upper_seq(s@.take(i as int)),
        decreases s.len() - i,
    {
        out.push(to_ascii_upper(s[i]));
        assert(ascii_upper_seq(s@.take(i + 1)) =~= ascii_upper_seq(s@.take(i as int)).push(
            ascii_upper(s@[i as int]),
        ));
        i = i + 1;
    }
    assert(s@.take(s.len() as int) =~= s@);
    out
}

/// ASCII case-insensitive equality of two char slices.
pub fn eq_ignoring_ascii_case(a: &[char], b: &[char]) -> (r: bool)
    ensures
        r == eq_ignore_ascii_case(a@, b@),
{
    if a.len() != b.len() {
        proof {
            let la = a@.map_values(|c: char| ascii_lower(c));
            let lb = b@.map_values(|c: char| ascii_lower(c));
            assert(la.len() != lb.len());
        }
        return false;
    }
    let ghost la = a@.map_values(|c: char| ascii_lower(c));
    let ghost lb = b@.map_values(|c: char| ascii_lower(c));
    let mut i: usize = 0;
    while i < a.len()
        invariant
            a.len() == b.len(),
            i <= a.len(),
            la == a@.map_values(|c: char| ascii_lower(c)),
            lb == b@.map_values(|c: char| ascii_lower(c)),
            forall|j: int| 0 <= j < i ==> la[j] == lb[j],
        decreases a.len() - i,
    {
        if to_ascii_lower(a[i]) != to_ascii_lower(b[i]) {
            assert(la[i as int] != lb[i as int]);
            return false;
        }
        i = i + 1;
    }
    assert(la =~= lb);
    true
}

/// `char::is_ascii_alphabetic`.
pub open spec fn ascii_alpha(c: char) -> bool {
    ('a' <= c && c <= 'z') || ('A' <= c && c <= 'Z')
}

/// Whether `c` is an ASCII letter.
pub fn is_ascii_alpha(c: char) -> (r: bool)
    ensures
        r == ascii_alpha(c),
{
    ('a' <= c && c <= 'z') || ('A' <= c && c <= 'Z')
}

/// `needle` occurs in `hay` as a contiguous run (`str::contains`).
pub open spec fn is_infix(needle: Seq<char>, hay: Seq<char>) -> bool {
    exists|i: int| 0 <= i && i + needle.len() <= hay.len() && #[trigger] hay.subrange(i, i + needle.len()) == needle
}

fn matches_at(hay: &[char], needle: &[char], at: usize) -> (r: bool)
    requires
        at + needle@.len() <= hay@.len(),
    ensures
        r == (hay@.subrange(at as int, at + needle@.len()) == needle@),
{
    let mut j: usize = 0;
    while j < needle.len()
        invariant
            at + needle@.len() <= hay@.len(),
            j <= needle.len(),
            forall|k: int| 0 <= k < j ==> hay@[at + k] == needle@[k],
        decreases needle.len() - j,
    {
        assert(at + j < hay.len());
        if hay[at + j] != needle[j] {
            assert(hay@.subrange(at as int, at + needle@.len())[j as int] != needle@[j as int]);
            return false;
        }
        j = j + 1;
    }
    assert(hay@.subrange(at as int, at + needle@.len()) =~= needle@);
    true
}

/// Whether `needle` occurs in `hay`.
pub fn contains_chars(hay: &[char], needle: &[char]) -> (r: bool)
    ensures
        r == is_infix(needle@, hay@),
{
    if needle.len() > hay.len() {
        return false;
    }
    let last = hay.len() - needle.len();
    let mut i: usize = 0;
    loop
        invariant
            last == hay@.len() - needle@.len(),
            i <= last,
            forall|k: int| 0 <= k < i ==> #[trigger] hay@.subrange(k, k + needle@.len()) != needle@,
        ensures
            forall|k: int| 0 <= k <= last ==> #[trigger] hay@.subrange(k, k + needle@.len()) != needle@,
        decreases last - i,
    {
        if matches_at(hay, needle, i) {
            return true;
        }
        if i == last {
            break;
        }
        i = i + 1;
    }
    assert forall|k: int| 0 <= k && k + needle@.len() <= hay@.len() implies #[trigger] hay@.subrange(
        k,
        k + needle@.len(),
    ) != needle@ by {
        assert(k <= last);
    }
    false
}

} // verus!
