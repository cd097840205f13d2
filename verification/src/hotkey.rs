//! Portable parsing of a hotkey string like `"Pause"` or `"Ctrl+Shift+K"`.
//!
//! The parsed [`HotkeySpec`] carries the modifier flags plus a canonical,
//! uppercase key name. Each platform backend maps that name to its native key
//! code, so this stays OS-independent.

use vstd::prelude::*;
use vstd::std_specs::iter::IteratorSpec;

use crate::text::{
    ascii_lower, ascii_upper, ascii_upper_seq, ascii_uppercase, chars_eq, copy_chars, chars_of, is_white_space,
    push_char, push_str, string_of, to_ascii_lower, trim, trim_end, trim_start,
    trimmed,
};

verus! {

broadcast use vstd::string::group_string_axioms;

/// A parsed hotkey: modifier state plus a canonical key name.
#[derive(Clone, Debug, PartialEq, Eq)]
pub struct HotkeySpec {
    pub ctrl: bool,
    pub shift: bool,
    pub alt: bool,
    pub meta: bool,
    /// Canonical uppercase key name, e.g. `"PAUSE"`, `"F5"`, `"K"`.
    pub key: String,
}

/// The mathematical value of a [`HotkeySpec`].
pub struct HotkeyView {
    pub ctrl: bool,
    pub shift: bool,
    pub alt: bool,
    pub meta: bool,
    pub key: Seq<char>,
}

impl View for HotkeySpec {
    type V = HotkeyView;

    open spec fn view(&self) -> HotkeyView {
        HotkeyView {
            ctrl: self.ctrl,
            shift: self.shift,
            alt: self.alt,
            meta: self.meta,
            key: self.key@,
        }
    }
}

pub open spec fn name_pause() -> Seq<char> {
    seq!['P', 'A', 'U', 'S', 'E']
}

impl Default for HotkeySpec {
    fn default() -> (r: Self)
        ensures
            r@ == (HotkeyView { ctrl: false, shift: false, alt: false, meta: false, key: name_pause() }),
    {
        let key = string_of(&['P', 'A', 'U', 'S', 'E']);
        HotkeySpec { ctrl: false, shift: false, alt: false, meta: false, key }
    }
}

/// `"CTRL"` and the other names the parser recognizes, uppercase.
pub open spec fn up_ctrl() -> Seq<char> { seq!['C', 'T', 'R', 'L'] }
pub open spec fn up_control() -> Seq<char> { seq!['C', 'O', 'N', 'T', 'R', 'O', 'L'] }
pub open spec fn up_shift() -> Seq<char> { seq!['S', 'H', 'I', 'F', 'T'] }
pub open spec fn up_alt() -> Seq<char> { seq!['A', 'L', 'T'] }
pub open spec fn up_option() -> Seq<char> { seq!['O', 'P', 'T', 'I', 'O', 'N'] }
pub open spec fn up_meta() -> Seq<char> { seq!['M', 'E', 'T', 'A'] }
pub open spec fn up_super() -> Seq<char> { seq!['S', 'U', 'P', 'E', 'R'] }
pub open spec fn up_win() -> Seq<char> { seq!['W', 'I', 'N'] }
pub open spec fn up_cmd() -> Seq<char> { seq!['C', 'M', 'D'] }
pub open spec fn up_command() -> Seq<char> { seq!['C', 'O', 'M', 'M', 'A', 'N', 'D'] }

/// Names under which the parser accepts a Ctrl modifier.
pub open spec fn is_ctrl_name(u: Seq<char>) -> bool { u == up_ctrl() || u == up_control() }
/// Names under which the parser accepts a Shift modifier.
pub open spec fn is_shift_name(u: Seq<char>) -> bool { u == up_shift() }
/// Names under which the parser accepts an Alt modifier.
pub open spec fn is_alt_name(u: Seq<char>) -> bool { u == up_alt() || u == up_option() }
/// Names under which the parser accepts a Meta (Super/Win/Cmd) modifier.
pub open spec fn is_meta_name(u: Seq<char>) -> bool {
    u == up_meta() || u == up_super() || u == up_win() || u == up_cmd() || u == up_command()
}

/// Any modifier name.
pub open spec fn is_modifier_name(u: Seq<char>) -> bool {
    is_ctrl_name(u) || is_shift_name(u) || is_alt_name(u) || is_meta_name(u)
}

/// Common aliases normalized to a canonical key name.
pub open spec fn canonical_name(u: Seq<char>) -> Seq<char> {
    if u == seq!['B', 'R', 'E', 'A', 'K'] || u == seq!['P', 'A', 'U', 'S', 'E', 'B', 'R', 'E', 'A', 'K']
        || u == seq!['P', 'A', 'U', 'S', 'E', '/', 'B', 'R', 'E', 'A', 'K'] {
        name_pause()
    } else if u == seq!['S', 'C', 'R', 'O', 'L', 'L'] || u == seq!['S', 'C', 'R', 'L', 'K'] {
        seq!['S', 'C', 'R', 'O', 'L', 'L', 'L', 'O', 'C', 'K']
    } else if u == seq!['E', 'S', 'C'] {
        seq!['E', 'S', 'C', 'A', 'P', 'E']
    } else if u == seq!['R', 'E', 'T', 'U', 'R', 'N'] {
        seq!['E', 'N', 'T', 'E', 'R']
    } else {
        u
    }
}

/// `s.split('+')`: the pieces between plus signs (one empty piece for an
/// empty string).
pub open spec fn split_plus(s: Seq<char>) -> Seq<Seq<char>>
    decreases s.len(),
{
    if s.len() == 0 {
        seq![Seq::<char>::empty()]
    } else {
        let r = split_plus(s.drop_last());
        if s.last() == '+' {
            r.push(Seq::<char>::empty())
        } else {
            r.update(r.len() - 1, r.last().push(s.last()))
        }
    }
}

/// The state before any piece is read.
pub open spec fn no_hotkey() -> HotkeyView {
    HotkeyView { ctrl: false, shift: false, alt: false, meta: false, key: Seq::<char>::empty() }
}

/// Reading one piece: blank pieces are skipped, modifier names set their
/// flag, anything else becomes the key (a later one replaces an earlier one).
pub open spec fn apply_piece(h: HotkeyView, piece: Seq<char>) -> HotkeyView {
    let p = trim(piece);
    let u = ascii_upper_seq(p);
    if p.len() == 0 {
        h
    } else if is_ctrl_name(u) {
        HotkeyView { ctrl: true, ..h }
    } else if is_shift_name(u) {
        HotkeyView { shift: true, ..h }
    } else if is_alt_name(u) {
        HotkeyView { alt: true, ..h }
    } else if is_meta_name(u) {
        HotkeyView { meta: true, ..h }
    } else {
        HotkeyView { key: canonical_name(u), ..h }
    }
}

/// Reading the pieces in order.
pub open spec fn apply_pieces(h: HotkeyView, pieces: Seq<Seq<char>>) -> HotkeyView
    decreases pieces.len(),
{
    if pieces.len() == 0 {
        h
    } else {
        apply_piece(apply_pieces(h, pieces.drop_last()), pieces.last())
    }
}

/// What [`parse`] makes of `s`: `None` when no piece names a key.
pub open spec fn parse_view(s: Seq<char>) -> Option<HotkeyView> {
    let h = apply_pieces(no_hotkey(), split_plus(s));
    if h.key.len() == 0 {
        None
    } else {
        Some(h)
    }
}

/// The modifier labels [`HotkeySpec::display`] writes, in order.
pub open spec fn modifier_labels(h: HotkeyView) -> Seq<Seq<char>> {
    (if h.ctrl { seq![seq!['C', 't', 'r', 'l']] } else { Seq::empty() }) + (if h.alt {
        seq![seq!['A', 'l', 't']]
    } else {
        Seq::empty()
    }) + (if h.shift { seq![seq!['S', 'h', 'i', 'f', 't']] } else { Seq::empty() }) + (if h.meta {
        seq![seq!['S', 'u', 'p', 'e', 'r']]
    } else {
        Seq::empty()
    })
}

/// Each label followed by a `+`.
pub open spec fn labels_prefix(labels: Seq<Seq<char>>) -> Seq<char>
    decreases labels.len(),
{
    if labels.len() == 0 {
        Seq::empty()
    } else {
        labels_prefix(labels.drop_last()) + labels.last() + seq!['+']
    }
}

/// How a key name is shown: its first char as it is, the rest in ASCII
/// lowercase (`PAUSE` is shown `Pause`, `F5` stays `F5`).
pub open spec fn key_label(key: Seq<char>) -> Seq<char> {
    if key.len() == 0 {
        key
    } else {
        seq![key[0]] + key.drop_first().map_values(|c: char| ascii_lower(c))
    }
}

/// What [`HotkeySpec::display`] writes: `"Ctrl+Alt+Shift+Super+Key"` with
/// the absent modifiers left out and the key shown by [`key_label`].
pub open spec fn display_view(h: HotkeyView) -> Seq<char> {
    labels_prefix(modifier_labels(h)) + key_label(h.key)
}

/// A key name that [`parse`] gives back unchanged: non-empty, uppercase, no
/// `+`, no surrounding white space, not a modifier name, already canonical.
pub open spec fn is_canonical_key(key: Seq<char>) -> bool {
    &&& key.len() > 0
    &&& !key.contains('+')
    &&& trim(key) == key
    &&& ascii_upper_seq(key) == key
    &&& !is_modifier_name(key)
    &&& canonical_name(key) == key
}

/// Append the shown form of the key name `key` (see [`key_label`]).
fn push_key_label(s: &mut String, key: &str)
    ensures
        final(s)@ == old(s)@ + key_label(key@),
{
    let ghost prefix = s@;
    let chars = chars_of(key);
    let mut i: usize = 0;
    assert(key_label(chars@.take(0)) =~= Seq::<char>::empty());
    assert(prefix + Seq::<char>::empty() =~= prefix);
    while i < chars.len()
        invariant
            i <= chars.len(),
            chars@ == key@,
            s@ == prefix + key_label(chars@.take(i as int)),
        decreases chars.len() - i,
    {
        let ghost before = chars@.take(i as int);
        let c = if i == 0 {
            chars[i]
        } else {
            to_ascii_lower(chars[i])
        };
        push_char(s, c);
        proof {
            let now = chars@.take(i + 1);
            if i == 0 {
                assert(key_label(now) =~= seq![chars@[0]]);
                assert(key_label(before) =~= Seq::<char>::empty());
            } else {
                assert(now.drop_first() =~= before.drop_first().push(chars@[i as int]));
                assert(key_label(now) =~= key_label(before).push(c));
            }
            assert(prefix + key_label(now) =~= (prefix + key_label(before)).push(c));
        }
        i = i + 1;
    }
    assert(chars@.take(chars.len() as int) =~= chars@);
}

impl HotkeySpec {
    /// Human-readable, re-parseable form, e.g. `"Ctrl+Shift+K"` or `"Pause"`.
    pub fn display(&self) -> (r: String)
        ensures
            r@ == display_view(self@),
    {
        let mut s = String::new();
        let ghost mut labels: Seq<Seq<char>> = Seq::empty();
        assert(s@ =~= labels_prefix(labels));
        if self.ctrl {
            push_str(&mut s, string_of(&['C', 't', 'r', 'l']).as_str());
            push_char(&mut s, '+');
            proof {
                let l2 = labels.push(seq!['C', 't', 'r', 'l']);
                assert(l2.drop_last() =~= labels);
                labels = l2;
            }
        }
        assert(s@ =~= labels_prefix(labels));
        if self.alt {
            push_str(&mut s, string_of(&['A', 'l', 't']).as_str());
            push_char(&mut s, '+');
            proof {
                let l2 = labels.push(seq!['A', 'l', 't']);
                assert(l2.drop_last() =~= labels);
                labels = l2;
            }
        }
        assert(s@ =~= labels_prefix(labels));
        if self.shift {
            push_str(&mut s, string_of(&['S', 'h', 'i', 'f', 't']).as_str());
            push_char(&mut s, '+');
            proof {
                let l2 = labels.push(seq!['S', 'h', 'i', 'f', 't']);
                assert(l2.drop_last() =~= labels);
                labels = l2;
            }
        }
        assert(s@ =~= labels_prefix(labels));
        if self.meta {
            push_str(&mut s, string_of(&['S', 'u', 'p', 'e', 'r']).as_str());
            push_char(&mut s, '+');
            proof {
                let l2 = labels.push(seq!['S', 'u', 'p', 'e', 'r']);
                assert(l2.drop_last() =~= labels);
                labels = l2;
            }
        }
        assert(s@ =~= labels_prefix(labels));
        assert(labels =~= modifier_labels(self@));
        push_key_label(&mut s, self.key.as_str());
        s
    }
}

/// Flags and key gathered while parsing.
struct Gathered {
    ctrl: bool,
    shift: bool,
    alt: bool,
    meta: bool,
    key: Vec<char>,
}

impl Gathered {
    spec fn as_view(&self) -> HotkeyView {
        HotkeyView { ctrl: self.ctrl, shift: self.shift, alt: self.alt, meta: self.meta, key: self.key@ }
    }
}

fn is_any(u: &[char], names: &[&[char]]) -> (r: bool)
    ensures
        r == exists|i: int| 0 <= i < names@.len() && u@ == names@[i]@,
{
    let mut i: usize = 0;
    while i < names.len()
        invariant
            i <= names.len(),
            forall|j: int| 0 <= j < i ==> u@ != names@[j]@,
        decreases names.len() - i,
    {
        if chars_eq(u, names[i]) {
            return true;
        }
        i = i + 1;
    }
    false
}

/// Normalize common aliases to a canonical key name.
fn canonical(name: &[char]) -> (r: Vec<char>)
    ensures
        r@ == canonical_name(name@),
{
    let pause_aliases: [&[char]; 3] = [
        &['B', 'R', 'E', 'A', 'K'],
        &['P', 'A', 'U', 'S', 'E', 'B', 'R', 'E', 'A', 'K'],
        &['P', 'A', 'U', 'S', 'E', '/', 'B', 'R', 'E', 'A', 'K'],
    ];
    let scroll_aliases: [&[char]; 2] = [&['S', 'C', 'R', 'O', 'L', 'L'], &['S', 'C', 'R', 'L', 'K']];
    if is_any(name, &pause_aliases) {
        assert(pause_aliases@[0]@ == seq!['B', 'R', 'E', 'A', 'K']);
        vec!['P', 'A', 'U', 'S', 'E']
    } else if is_any(name, &scroll_aliases) {
        vec!['S', 'C', 'R', 'O', 'L', 'L', 'L', 'O', 'C', 'K']
    } else if chars_eq(name, &['E', 'S', 'C']) {
        vec!['E', 'S', 'C', 'A', 'P', 'E']
    } else if chars_eq(name, &['R', 'E', 'T', 'U', 'R', 'N']) {
        vec!['E', 'N', 'T', 'E', 'R']
    } else {
        copy_chars(name)
    }
}

fn read_piece(g: &mut Gathered, piece: &[char])
    ensures
        final(g).as_view() == apply_piece(old(g).as_view(), piece@),
{
    let p = trimmed(piece);
    if p.len() == 0 {
        return ;
    }
    let u = ascii_uppercase(&p);
    let ctrl_names: [&[char]; 2] = [&['C', 'T', 'R', 'L'], &['C', 'O', 'N', 'T', 'R', 'O', 'L']];
    let alt_names: [&[char]; 2] = [&['A', 'L', 'T'], &['O', 'P', 'T', 'I', 'O', 'N']];
    let meta_names: [&[char]; 5] = [
        &['M', 'E', 'T', 'A'],
        &['S', 'U', 'P', 'E', 'R'],
        &['W', 'I', 'N'],
        &['C', 'M', 'D'],
        &['C', 'O', 'M', 'M', 'A', 'N', 'D'],
    ];
    if is_any(&u, &ctrl_names) {
        g.ctrl = true;
    } else if chars_eq(&u, &['S', 'H', 'I', 'F', 'T']) {
        g.shift = true;
    } else if is_any(&u, &alt_names) {
        g.alt = true;
    } else if is_any(&u, &meta_names) {
        g.meta = true;
    } else {
        g.key = canonical(&u);
    }
}

/// Parse a hotkey string. Components are separated by `+`; the last non-modifier
/// component is the key. Returns `None` if there is no key component.
pub fn parse(s: &str) -> (r: Option<HotkeySpec>)
    ensures
        r is None <==> parse_view(s@) is None,
        r matches Some(h) ==> parse_view(s@) == Some(h@),
{
    let chars = chars_of(s);
    let mut g = Gathered { ctrl: false, shift: false, alt: false, meta: false, key: Vec::new() };
    let mut cur: Vec<char> = Vec::new();
    let mut i: usize = 0;
    while i < chars.len()
        invariant
            i <= chars.len(),
            split_plus(chars@.take(i as int)).len() > 0,
            g.as_view() == apply_pieces(no_hotkey(), split_plus(chars@.take(i as int)).drop_last()),
            cur@ == split_plus(chars@.take(i as int)).last(),
        decreases chars.len() - i,
    {
        let ghost before = split_plus(chars@.take(i as int));
        let c = chars[i];
        assert(chars@.take(i + 1).drop_last() =~= chars@.take(i as int));
        assert(chars@.take(i + 1).last() == c);
        if c == '+' {
            read_piece(&mut g, &cur);
            cur = Vec::new();
            assert(split_plus(chars@.take(i + 1)).drop_last() =~= before);
            assert(cur@ =~= split_plus(chars@.take(i + 1)).last());
        } else {
            cur.push(c);
            assert(split_plus(chars@.take(i + 1)).drop_last() =~= before.drop_last());
        }
        i = i + 1;
    }
    let ghost pieces = split_plus(chars@.take(i as int));
    read_piece(&mut g, &cur);
    assert(pieces.drop_last().push(pieces.last()) =~= pieces);
    assert(chars@.take(i as int) =~= s@);
    if g.key.len() == 0 {
        None
    } else {
        let key = string_of(&g.key);
        Some(HotkeySpec { ctrl: g.ctrl, shift: g.shift, alt: g.alt, meta: g.meta, key })
    }
}

proof fn lemma_split_concat(a: Seq<char>, b: Seq<char>)
    ensures
        split_plus(a + seq!['+'] + b) == split_plus(a) + split_plus(b),
    decreases b.len(),
{
    let ap = a + seq!['+'];
    if b.len() == 0 {
        assert(ap + b =~= ap);
        assert(ap.drop_last() =~= a);
        assert(split_plus(a) + split_plus(b) =~= split_plus(a).push(Seq::<char>::empty()));
    } else {
        lemma_split_concat(a, b.drop_last());
        assert((ap + b).drop_last() =~= ap + b.drop_last());
        assert((ap + b).last() == b.last());
        let r = split_plus(ap + b.drop_last());
        let rb = split_plus(b.drop_last());
        assert(rb.len() > 0) by {
            lemma_split_nonempty(b.drop_last());
        }
        if b.last() == '+' {
            assert(split_plus(a) + rb.push(Seq::<char>::empty()) =~= (split_plus(a) + rb).push(
                Seq::<char>::empty(),
            ));
        } else {
            assert(split_plus(a) + rb.update(rb.len() - 1, rb.last().push(b.last())) =~= (
            split_plus(a) + rb).update(r.len() - 1, r.last().push(b.last())));
        }
    }
}

proof fn lemma_split_nonempty(s: Seq<char>)
    ensures
        split_plus(s).len() > 0,
    decreases s.len(),
{
    if s.len() > 0 {
        lemma_split_nonempty(s.drop_last());
    }
}

proof fn lemma_split_no_plus(x: Seq<char>)
    requires
        !x.contains('+'),
    ensures
        split_plus(x) == seq![x],
    decreases x.len(),
{
    if x.len() == 0 {
        assert(x =~= Seq::<char>::empty());
    } else {
        let init = x.drop_last();
        assert(!init.contains('+')) by {
            if init.contains('+') {
                let i = choose|i: int| 0 <= i < init.len() && init[i] == '+';
                assert(x[i] == '+');
            }
        }
        lemma_split_no_plus(init);
        assert(x[x.len() - 1] != '+');
        assert(init.push(x.last()) =~= x);
        assert(seq![init].update(0, init.push(x.last())) =~= seq![x]);
    }
}

proof fn lemma_split_labels(labels: Seq<Seq<char>>, key: Seq<char>)
    requires
        forall|i: int| 0 <= i < labels.len() ==> !(#[trigger] labels[i]).contains('+'),
        !key.contains('+'),
    ensures
        split_plus(labels_prefix(labels) + key) == labels.push(key),
    decreases labels.len(),
{
    if labels.len() == 0 {
        assert(labels_prefix(labels) + key =~= key);
        lemma_split_no_plus(key);
        assert(labels.push(key) =~= seq![key]);
    } else {
        let init = labels.drop_last();
        let last = labels.last();
        assert(!labels[labels.len() - 1].contains('+'));
        lemma_split_labels(init, last);
        lemma_split_concat(labels_prefix(init) + last, key);
        assert(labels_prefix(labels) + key =~= (labels_prefix(init) + last) + seq!['+'] + key);
        lemma_split_no_plus(key);
        assert(init.push(last) =~= labels);
    }
}

proof fn lemma_apply_concat(h: HotkeyView, a: Seq<Seq<char>>, b: Seq<Seq<char>>)
    ensures
        apply_pieces(h, a + b) == apply_pieces(apply_pieces(h, a), b),
    decreases b.len(),
{
    if b.len() == 0 {
        assert(a + b =~= a);
    } else {
        lemma_apply_concat(h, a, b.drop_last());
        assert((a + b).drop_last() =~= a + b.drop_last());
        assert((a + b).last() == b.last());
    }
}

proof fn lemma_apply_single(h: HotkeyView, x: Seq<char>)
    ensures
        apply_pieces(h, seq![x]) == apply_piece(h, x),
{
    assert(seq![x].drop_last() =~= Seq::<Seq<char>>::empty());
    assert(apply_pieces(h, Seq::<Seq<char>>::empty()) == h);
    assert(seq![x].last() == x);
}

proof fn lemma_apply_optional(h: HotkeyView, flag: bool, x: Seq<char>)
    ensures
        apply_pieces(h, if flag { seq![x] } else { Seq::empty() }) == if flag {
            apply_piece(h, x)
        } else {
            h
        },
{
    if flag {
        lemma_apply_single(h, x);
    }
}

proof fn lemma_labels_read_back(g: HotkeyView)
    ensures
        apply_piece(g, seq!['C', 't', 'r', 'l']) == (HotkeyView { ctrl: true, ..g }),
        apply_piece(g, seq!['A', 'l', 't']) == (HotkeyView { alt: true, ..g }),
        apply_piece(g, seq!['S', 'h', 'i', 'f', 't']) == (HotkeyView { shift: true, ..g }),
        apply_piece(g, seq!['S', 'u', 'p', 'e', 'r']) == (HotkeyView { meta: true, ..g }),
{
    let c = seq!['C', 't', 'r', 'l'];
    let a = seq!['A', 'l', 't'];
    let s = seq!['S', 'h', 'i', 'f', 't'];
    let m = seq!['S', 'u', 'p', 'e', 'r'];
    assert(c.drop_first().len() == 3);
    assert(trim(c) == c);
    assert(trim(a) == a);
    assert(trim(s) == s);
    assert(trim(m) == m);
    assert(ascii_upper_seq(c) =~= up_ctrl());
    assert(ascii_upper_seq(a) =~= up_alt());
    assert(ascii_upper_seq(s) =~= up_shift());
    assert(ascii_upper_seq(m) =~= up_super());
    assert(up_super() != up_shift());
    assert(up_alt() != up_ctrl());
    assert(up_shift() != up_ctrl() && up_shift() != up_control());
    assert(up_alt() != up_control() && up_alt() != up_shift());
    assert(up_super() != up_ctrl() && up_super() != up_control() && up_super() != up_alt()
        && up_super() != up_option());
}

proof fn lemma_trim_start_keeps(s: Seq<char>)
    ensures
        trim_start(s).len() <= s.len(),
        trim_start(s).len() == s.len() ==> trim_start(s) == s,
        s.len() > 0 && is_white_space(s[0]) ==> trim_start(s).len() < s.len(),
    decreases s.len(),
{
    if s.len() > 0 && is_white_space(s[0]) {
        lemma_trim_start_keeps(s.drop_first());
    }
}

proof fn lemma_trim_end_keeps(s: Seq<char>)
    ensures
        trim_end(s).len() <= s.len(),
        s.len() > 0 && is_white_space(s.last()) ==> trim_end(s).len() < s.len(),
    decreases s.len(),
{
    if s.len() > 0 && is_white_space(s.last()) {
        lemma_trim_end_keeps(s.drop_last());
    }
}

proof fn lemma_lower_then_upper(c: char)
    requires
        ascii_upper(c) == c,
    ensures
        ascii_upper(ascii_lower(c)) == c,
        c != '+' ==> ascii_lower(c) != '+',
        is_white_space(ascii_lower(c)) == is_white_space(c),
{
    if 'A' <= c && c <= 'Z' {
        let l = ((c as u32) + 32) as char;
        assert(l as u32 == (c as u32) + 32);
        assert('a' <= l && l <= 'z');
        assert(((l as u32) - 32) as char == c);
    }
}

/// The shown key name reads back as the key name itself.
proof fn lemma_key_label_reads_back(g: HotkeyView, k: Seq<char>)
    requires
        is_canonical_key(k),
    ensures
        !key_label(k).contains('+'),
        apply_piece(g, key_label(k)) == apply_piece(g, k),
{
    let l = key_label(k);
    lemma_trim_start_keeps(k);
    lemma_trim_end_keeps(trim_start(k));
    assert(trim_start(k) == k);
    lemma_trim_end_keeps(k);
    assert(!is_white_space(k[0]));
    assert(!is_white_space(k.last()));
    assert(l.len() == k.len());
    assert forall|i: int| 0 <= i < k.len() implies ascii_upper(#[trigger] k[i]) == k[i] by {
        assert(ascii_upper_seq(k)[i] == k[i]);
    }
    assert forall|i: int| 0 < i < k.len() implies #[trigger] l[i] == ascii_lower(k[i]) by {
        assert(l[i] == k.drop_first().map_values(|c: char| ascii_lower(c))[i - 1]);
    }
    assert forall|i: int| 0 <= i < k.len() implies ascii_upper(#[trigger] l[i]) == k[i] && l[i] != '+' by {
        lemma_lower_then_upper(k[i]);
        assert(!k.contains('+'));
        assert(k[i] != '+');
    }
    if l.contains('+') {
        let j = choose|j: int| 0 <= j < l.len() && l[j] == '+';
        assert(l[j] != '+');
    }
    assert(ascii_upper_seq(l) =~= k);
    lemma_lower_then_upper(k.last());
    assert(!is_white_space(l[0]));
    assert(!is_white_space(l.last()));
    assert(trim_start(l) == l);
    assert(trim_end(l) == l);
    assert(trim(l) == l);
}

/// [`HotkeySpec::display`] is re-parseable: parsing what it writes gives the
/// same hotkey back, for every hotkey whose key name is canonical (as
/// [`parse`] produces them).
pub proof fn law_display_parses_back(h: HotkeyView)
    requires
        is_canonical_key(h.key),
    ensures
        parse_view(display_view(h)) == Some(h),
{
    let labels = modifier_labels(h);
    assert forall|i: int| 0 <= i < labels.len() implies !(#[trigger] labels[i]).contains('+') by {
        let l = labels[i];
        if l.contains('+') {
            let j = choose|j: int| 0 <= j < l.len() && l[j] == '+';
            assert(l[j] != '+');
        }
    }
    let shown = key_label(h.key);
    lemma_key_label_reads_back(no_hotkey(), h.key);
    lemma_split_labels(labels, shown);
    let e = no_hotkey();
    let oc: Seq<Seq<char>> = if h.ctrl { seq![seq!['C', 't', 'r', 'l']] } else { Seq::empty() };
    let oa: Seq<Seq<char>> = if h.alt { seq![seq!['A', 'l', 't']] } else { Seq::empty() };
    let os: Seq<Seq<char>> = if h.shift { seq![seq!['S', 'h', 'i', 'f', 't']] } else { Seq::empty() };
    let om: Seq<Seq<char>> = if h.meta { seq![seq!['S', 'u', 'p', 'e', 'r']] } else { Seq::empty() };
    assert(labels == oc + oa + os + om);
    lemma_apply_concat(e, oc + oa + os + om, seq![shown]);
    lemma_apply_concat(e, oc + oa + os, om);
    lemma_apply_concat(e, oc + oa, os);
    lemma_apply_concat(e, oc, oa);
    let g1 = apply_pieces(e, oc);
    lemma_apply_optional(e, h.ctrl, seq!['C', 't', 'r', 'l']);
    lemma_labels_read_back(e);
    let g2 = apply_pieces(g1, oa);
    lemma_apply_optional(g1, h.alt, seq!['A', 'l', 't']);
    lemma_labels_read_back(g1);
    let g3 = apply_pieces(g2, os);
    lemma_apply_optional(g2, h.shift, seq!['S', 'h', 'i', 'f', 't']);
    lemma_labels_read_back(g2);
    let g4 = apply_pieces(g3, om);
    lemma_apply_optional(g3, h.meta, seq!['S', 'u', 'p', 'e', 'r']);
    lemma_labels_read_back(g3);
    lemma_apply_single(g4, shown);
    lemma_key_label_reads_back(g4, h.key);
    assert(labels.push(shown) =~= labels + seq![shown]);
    let r = apply_piece(g4, shown);
    assert(r == h);
}

proof fn lemma_upper_char(c: char)
    ensures
        is_white_space(ascii_upper(c)) == is_white_space(c),
        (ascii_upper(c) == '+') == (c == '+'),
        ascii_upper(ascii_upper(c)) == ascii_upper(c),
{
    if 'a' <= c && c <= 'z' {
        let u = ((c as u32) - 32) as char;
        assert(u as u32 == (c as u32) - 32);
        assert('A' <= u && u <= 'Z');
    }
}

proof fn lemma_upper_drop(s: Seq<char>)
    requires
        s.len() > 0,
    ensures
        ascii_upper_seq(s).drop_last() == ascii_upper_seq(s.drop_last()),
        ascii_upper_seq(s).drop_first() == ascii_upper_seq(s.drop_first()),
        ascii_upper_seq(s).last() == ascii_upper(s.last()),
        ascii_upper_seq(s)[0] == ascii_upper(s[0]),
{
    assert(ascii_upper_seq(s).drop_last() =~= ascii_upper_seq(s.drop_last()));
    assert(ascii_upper_seq(s).drop_first() =~= ascii_upper_seq(s.drop_first()));
}

proof fn lemma_trim_start_upper(s: Seq<char>)
    ensures
        trim_start(ascii_upper_seq(s)) == ascii_upper_seq(trim_start(s)),
    decreases s.len(),
{
    if s.len() > 0 {
        lemma_upper_drop(s);
        lemma_upper_char(s[0]);
        if is_white_space(s[0]) {
            lemma_trim_start_upper(s.drop_first());
        }
    }
}

proof fn lemma_trim_end_upper(s: Seq<char>)
    ensures
        trim_end(ascii_upper_seq(s)) == ascii_upper_seq(trim_end(s)),
    decreases s.len(),
{
    if s.len() > 0 {
        lemma_upper_drop(s);
        lemma_upper_char(s.last());
        if is_white_space(s.last()) {
            lemma_trim_end_upper(s.drop_last());
        }
    }
}

proof fn lemma_upper_twice(s: Seq<char>)
    ensures
        ascii_upper_seq(ascii_upper_seq(s)) == ascii_upper_seq(s),
{
    assert forall|i: int| 0 <= i < s.len() implies ascii_upper_seq(ascii_upper_seq(s))[i] == ascii_upper_seq(s)[i] by {
        lemma_upper_char(s[i]);
    }
    assert(ascii_upper_seq(ascii_upper_seq(s)) =~= ascii_upper_seq(s));
}

proof fn lemma_piece_upper(h: HotkeyView, p: Seq<char>)
    ensures
        apply_piece(h, ascii_upper_seq(p)) == apply_piece(h, p),
{
    lemma_trim_start_upper(p);
    lemma_trim_end_upper(trim_start(p));
    lemma_upper_twice(trim(p));
}

proof fn lemma_split_upper(s: Seq<char>)
    ensures
        split_plus(ascii_upper_seq(s)).len() == split_plus(s).len(),
        forall|i: int|
            0 <= i < split_plus(s).len() ==> #[trigger] split_plus(ascii_upper_seq(s))[i] == ascii_upper_seq(
                split_plus(s)[i],
            ),
    decreases s.len(),
{
    let u = ascii_upper_seq(s);
    if s.len() == 0 {
        assert(u.len() == 0);
        assert(ascii_upper_seq(Seq::<char>::empty()) =~= Seq::<char>::empty());
    } else {
        lemma_upper_drop(s);
        lemma_upper_char(s.last());
        lemma_split_upper(s.drop_last());
        let r = split_plus(s.drop_last());
        let r2 = split_plus(ascii_upper_seq(s.drop_last()));
        assert(u.drop_last() == ascii_upper_seq(s.drop_last()));
        assert(r.len() > 0) by {
            lemma_split_nonempty(s.drop_last());
        }
        if s.last() != '+' {
            let p = r.last();
            assert(split_plus(u) == r2.update(r2.len() - 1, r2.last().push(u.last())));
            assert(split_plus(s) == r.update(r.len() - 1, r.last().push(s.last())));
            assert(r2.last() == ascii_upper_seq(p));
            assert(ascii_upper_seq(p.push(s.last())) =~= ascii_upper_seq(p).push(ascii_upper(s.last())));
        } else {
            assert(split_plus(u) == r2.push(Seq::<char>::empty()));
            assert(split_plus(s) == r.push(Seq::<char>::empty()));
            assert(ascii_upper_seq(Seq::<char>::empty()) =~= Seq::<char>::empty());
        }
    }
}

proof fn lemma_pieces_upper(h: HotkeyView, a: Seq<Seq<char>>, b: Seq<Seq<char>>)
    requires
        a.len() == b.len(),
        forall|i: int| 0 <= i < b.len() ==> #[trigger] a[i] == ascii_upper_seq(b[i]),
    ensures
        apply_pieces(h, a) == apply_pieces(h, b),
    decreases b.len(),
{
    if b.len() > 0 {
        let n = b.len() - 1;
        assert forall|i: int| 0 <= i < n implies #[trigger] a.drop_last()[i] == ascii_upper_seq(
            b.drop_last()[i],
        ) by {
            assert(a[i] == ascii_upper_seq(b[i]));
        }
        lemma_pieces_upper(h, a.drop_last(), b.drop_last());
        assert(a[n] == ascii_upper_seq(b[n]));
        lemma_piece_upper(apply_pieces(h, b.drop_last()), b.last());
    }
}

/// Parsing ignores letter case: a hotkey string and its ASCII uppercase form
/// parse to the same hotkey (or both to none).
pub proof fn law_parse_ignores_case(s: Seq<char>)
    ensures
        parse_view(ascii_upper_seq(s)) == parse_view(s),
{
    lemma_split_upper(s);
    lemma_pieces_upper(no_hotkey(), split_plus(ascii_upper_seq(s)), split_plus(s));
}

/// How one piece of a hotkey string is read, by its trimmed, uppercased
/// text: `CTRL`/`CONTROL` set Ctrl, `SHIFT` sets Shift, `ALT`/`OPTION` set
/// Alt, and `META`/`SUPER`/`WIN`/`CMD`/`COMMAND` set Meta, each leaving
/// everything else as it was; a flag is only ever set by one of its own
/// names.
pub proof fn law_modifier_names(h: HotkeyView, p: Seq<char>)
    ensures
        ({
            let u = ascii_upper_seq(trim(p));
            let r = apply_piece(h, p);
            &&& (u == seq!['C', 'T', 'R', 'L'] || u == seq!['C', 'O', 'N', 'T', 'R', 'O', 'L']) ==> r
                == HotkeyView { ctrl: true, ..h }
            &&& u == seq!['S', 'H', 'I', 'F', 'T'] ==> r == HotkeyView { shift: true, ..h }
            &&& (u == seq!['A', 'L', 'T'] || u == seq!['O', 'P', 'T', 'I', 'O', 'N']) ==> r == HotkeyView {
                alt: true,
                ..h
            }
            &&& (u == seq!['M', 'E', 'T', 'A'] || u == seq!['S', 'U', 'P', 'E', 'R'] || u == seq!['W', 'I', 'N']
                || u == seq!['C', 'M', 'D'] || u == seq!['C', 'O', 'M', 'M', 'A', 'N', 'D']) ==> r == HotkeyView {
                meta: true,
                ..h
            }
            &&& r.ctrl != h.ctrl ==> (u == seq!['C', 'T', 'R', 'L'] || u == seq![
                'C',
                'O',
                'N',
                'T',
                'R',
                'O',
                'L',
            ])
            &&& r.meta != h.meta ==> (u == seq!['M', 'E', 'T', 'A'] || u == seq!['S', 'U', 'P', 'E', 'R'] || u
                == seq!['W', 'I', 'N'] || u == seq!['C', 'M', 'D'] || u == seq![
                'C',
                'O',
                'M',
                'M',
                'A',
                'N',
                'D',
            ])
        }),
{
    let u = ascii_upper_seq(trim(p));
    assert(up_ctrl() =~= seq!['C', 'T', 'R', 'L']);
    assert(up_control() =~= seq!['C', 'O', 'N', 'T', 'R', 'O', 'L']);
    assert(up_shift() =~= seq!['S', 'H', 'I', 'F', 'T']);
    assert(up_alt() =~= seq!['A', 'L', 'T']);
    assert(up_option() =~= seq!['O', 'P', 'T', 'I', 'O', 'N']);
    assert(up_meta() =~= seq!['M', 'E', 'T', 'A']);
    assert(up_super() =~= seq!['S', 'U', 'P', 'E', 'R']);
    assert(up_win() =~= seq!['W', 'I', 'N']);
    assert(up_cmd() =~= seq!['C', 'M', 'D']);
    assert(up_command() =~= seq!['C', 'O', 'M', 'M', 'A', 'N', 'D']);
    if u.len() > 0 {
        assert(trim(p).len() > 0);
    }
}

/// A piece that names no modifier names the key: the last such piece wins,
/// read in uppercase with the common aliases normalized (`BREAK`,
/// `PAUSEBREAK`, `PAUSE/BREAK` are `PAUSE`; `SCROLL`, `SCRLK` are
/// `SCROLLLOCK`; `ESC` is `ESCAPE`; `RETURN` is `ENTER`; any other name is
/// kept as it is), and it changes no modifier.
pub proof fn law_key_pieces(h: HotkeyView, p: Seq<char>)
    ensures
        ({
            let u = ascii_upper_seq(trim(p));
            let r = apply_piece(h, p);
            &&& u.len() == 0 ==> r == h
            &&& u.len() > 0 && !is_modifier_name(u) ==> r == HotkeyView { key: canonical_name(u), ..h }
        }),
        canonical_name(seq!['B', 'R', 'E', 'A', 'K']) == seq!['P', 'A', 'U', 'S', 'E'],
        canonical_name(seq!['P', 'A', 'U', 'S', 'E', 'B', 'R', 'E', 'A', 'K']) == seq!['P', 'A', 'U', 'S', 'E'],
        canonical_name(seq!['P', 'A', 'U', 'S', 'E', '/', 'B', 'R', 'E', 'A', 'K']) == seq!['P', 'A', 'U', 'S', 'E'],
        canonical_name(seq!['S', 'C', 'R', 'O', 'L', 'L']) == seq!['S', 'C', 'R', 'O', 'L', 'L', 'L', 'O', 'C', 'K'],
        canonical_name(seq!['S', 'C', 'R', 'L', 'K']) == seq!['S', 'C', 'R', 'O', 'L', 'L', 'L', 'O', 'C', 'K'],
        canonical_name(seq!['E', 'S', 'C']) == seq!['E', 'S', 'C', 'A', 'P', 'E'],
        canonical_name(seq!['R', 'E', 'T', 'U', 'R', 'N']) == seq!['E', 'N', 'T', 'E', 'R'],
        forall|u: Seq<char>|
            u != seq!['B', 'R', 'E', 'A', 'K'] && u != seq!['P', 'A', 'U', 'S', 'E', 'B', 'R', 'E', 'A', 'K'] && u
                != seq!['P', 'A', 'U', 'S', 'E', '/', 'B', 'R', 'E', 'A', 'K'] && u != seq!['S', 'C', 'R', 'O', 'L', 'L']
                && u != seq!['S', 'C', 'R', 'L', 'K'] && u != seq!['E', 'S', 'C'] && u != seq!['R', 'E', 'T', 'U', 'R', 'N']
                ==> #[trigger] canonical_name(u) == u,
{
    lemma_upper_twice(trim(p));
    if ascii_upper_seq(trim(p)).len() > 0 {
        assert(trim(p).len() > 0);
    } else {
        assert(trim(p).len() == 0);
    }
}

} // verus!
