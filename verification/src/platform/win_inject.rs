//! The key-event batches the Windows injector sends with `SendInput`.
//!
//! Text is normally typed as Unicode packets (one down/up pair per UTF-16
//! unit), which deliver the exact characters whatever layout the receiving
//! application has applied. Notepad++ corrupts Unicode replacement batches,
//! so for that exact process a replacement is sent as one physical-scancode
//! batch, built completely before anything is sent, or not at all.

use vstd::prelude::*;

use crate::keycode::PhysKey;
use crate::layout::{char_to_key, is_letter_of, key_for_char, letter_of, to_lower, Lang};
use crate::platform::win_keymap::{scan_code, SC_BACKSPACE, SC_SPACE};
use crate::platform::win_layout::notepad_plus_plus;
use crate::text::{chars_eq, chars_of};
use crate::unicode::lower_char;

verus! {

/// The tag carried by every injected event (`"KBSW"`).
pub const MAGIC: usize = 0x4B42_5357;

/// `KEYEVENTF_KEYUP`.
pub const KEYUP: u32 = 0x2;

/// `KEYEVENTF_UNICODE`.
pub const UNICODE: u32 = 0x4;

/// `KEYEVENTF_SCANCODE`.
pub const SCANCODE: u32 = 0x8;

/// Virtual-key code of Backspace.
pub const VK_BACK: u16 = 0x08;

/// Virtual-key code of Tab.
pub const VK_TAB: u16 = 0x09;

/// Scan code of the left Shift key.
pub const SC_SHIFT: u16 = 0x2A;

/// One keyboard event of a `SendInput` batch.
#[derive(Clone, Copy, Debug, PartialEq, Eq, Structural)]
pub struct KeyInput {
    /// Virtual-key code (0 for Unicode and scancode events).
    pub vk: u16,
    /// Scan code, or the UTF-16 unit of a Unicode event.
    pub scan: u16,
    /// `KEYEVENTF_*` flags.
    pub flags: u32,
    /// The tag that lets the hook recognize our own events.
    pub extra_info: usize,
}

/// How a replacement batch is typed.
#[derive(Clone, Copy, Debug, PartialEq, Eq, Structural)]
pub enum InputMode {
    Unicode,
    PhysicalScancode,
}

/// The UTF-16 encoding of one char: itself below U+10000, otherwise a
/// surrogate pair.
pub open spec fn utf16(c: char) -> Seq<u16> {
    let v = c as u32;
    if v < 0x10000 {
        seq![v as u16]
    } else {
        seq![(0xD800 + (v - 0x10000) / 0x400) as u16, (0xDC00 + (v - 0x10000) % 0x400) as u16]
    }
}

/// The UTF-16 encoding of a text (`str::encode_utf16`).
pub open spec fn utf16_of(s: Seq<char>) -> Seq<u16>
    decreases s.len(),
{
    if s.len() == 0 {
        seq![]
    } else {
        utf16_of(s.drop_last()) + utf16(s.last())
    }
}

/// A down/up pair of a Unicode packet.
pub open spec fn unicode_pair(unit: u16) -> Seq<KeyInput> {
    seq![KeyInput { vk: 0, scan: unit, flags: UNICODE, extra_info: MAGIC }, KeyInput { vk: 0, scan: unit, flags: UNICODE | KEYUP, extra_info: MAGIC }]
}

/// Unicode pairs for each unit.
pub open spec fn unicode_inputs(units: Seq<u16>) -> Seq<KeyInput>
    decreases units.len(),
{
    if units.len() == 0 {
        seq![]
    } else {
        unicode_inputs(units.drop_last()) + unicode_pair(units.last())
    }
}

/// A down/up pair of a virtual key.
pub open spec fn vk_pair(vk: u16) -> Seq<KeyInput> {
    seq![KeyInput { vk, scan: 0, flags: 0, extra_info: MAGIC }, KeyInput { vk, scan: 0, flags: KEYUP, extra_info: MAGIC }]
}

/// A down/up pair of a scan code.
pub open spec fn scan_pair(scan: u16) -> Seq<KeyInput> {
    seq![KeyInput { vk: 0, scan, flags: SCANCODE, extra_info: MAGIC }, KeyInput { vk: 0, scan, flags: SCANCODE | KEYUP, extra_info: MAGIC }]
}

/// `n` repetitions of a pair.
pub open spec fn repeat(pair: Seq<KeyInput>, n: nat) -> Seq<KeyInput>
    decreases n,
{
    if n == 0 {
        seq![]
    } else {
        repeat(pair, (n - 1) as nat) + pair
    }
}

/// The physical keystrokes that type `ch`, pressing Shift around the key
/// when the wanted case differs from what Caps Lock gives; `None` when `ch`
/// is neither Space nor an English or Russian letter.
pub open spec fn physical_char(ch: char, caps_lock_on: bool) -> Option<Seq<KeyInput>> {
    if ch == ' ' {
        Some(scan_pair(SC_SPACE as u16))
    } else {
        let lang = if letter_of(ch, Lang::En) {
            Some(Lang::En)
        } else if letter_of(ch, Lang::Ru) {
            Some(Lang::Ru)
        } else {
            None
        };
        match lang {
            None => None,
            Some(l) => match key_for_char(ch, l) {
                None => None,
                Some(k) => {
                    let scan = scan_code(k) as u16;
                    let shifted = (ch != lower_char(ch)) != caps_lock_on;
                    if shifted {
                        Some(
                            seq![KeyInput { vk: 0, scan: SC_SHIFT, flags: SCANCODE, extra_info: MAGIC }] + scan_pair(scan) + seq![
                                KeyInput { vk: 0, scan: SC_SHIFT, flags: SCANCODE | KEYUP, extra_info: MAGIC },
                            ],
                        )
                    } else {
                        Some(scan_pair(scan))
                    }
                },
            },
        }
    }
}

/// The physical keystrokes of a whole text, or `None` if any char has none.
pub open spec fn physical_text(s: Seq<char>, caps_lock_on: bool) -> Option<Seq<KeyInput>>
    decreases s.len(),
{
    if s.len() == 0 {
        Some(seq![])
    } else {
        match physical_text(s.drop_last(), caps_lock_on) {
            None => None,
            Some(front) => match physical_char(s.last(), caps_lock_on) {
                None => None,
                Some(tail) => Some(front + tail),
            },
        }
    }
}

/// The scan code the injector presses for a tracked key.
pub fn scan_of(key: PhysKey) -> (r: Option<u16>)
    ensures
        r == Some(scan_code(key) as u16),
{
    let s = crate::platform::win_keymap::scan_code_of(key);
    Some(s as u16)
}

fn push_pair(out: &mut Vec<KeyInput>, down: KeyInput, up: KeyInput)
    ensures
        final(out)@ == old(out)@ + seq![down, up],
{
    out.push(down);
    out.push(up);
}

fn append_units(out: &mut Vec<KeyInput>, text: &str)
    ensures
        final(out)@ == old(out)@ + unicode_inputs(utf16_of(text@)),
{
    let v = chars_of(text);
    let ghost start = out@;
    let mut i: usize = 0;
    while i < v.len()
        invariant
            i <= v.len(),
            v@ == text@,
            out@ == start + unicode_inputs(utf16_of(v@.take(i as int))),
        decreases v.len() - i,
    {
        let c = v[i];
        let ghost before = utf16_of(v@.take(i as int));
        assert(v@.take(i + 1).drop_last() =~= v@.take(i as int));
        let x = c as u32;
        assert(v@.take(i + 1).last() == c);
        assert(utf16_of(v@.take(i + 1)) == before + utf16(c));
        if x < 0x10000 {
            let u = x as u16;
            push_pair(out, KeyInput { vk: 0, scan: u, flags: UNICODE, extra_info: MAGIC }, KeyInput { vk: 0, scan: u, flags: UNICODE | KEYUP, extra_info: MAGIC });
            proof {
                lemma_unicode_inputs_append(before, seq![u]);
                assert(utf16(c) =~= seq![u]);
                assert(seq![u].drop_last() =~= Seq::<u16>::empty());
                assert(unicode_inputs(Seq::<u16>::empty()) =~= Seq::<KeyInput>::empty());
                assert(unicode_inputs(seq![u]) =~= unicode_pair(u));
            }
        } else {
            let hi = (0xD800 + (x - 0x10000) / 0x400) as u16;
            let lo = (0xDC00 + (x - 0x10000) % 0x400) as u16;
            push_pair(out, KeyInput { vk: 0, scan: hi, flags: UNICODE, extra_info: MAGIC }, KeyInput { vk: 0, scan: hi, flags: UNICODE | KEYUP, extra_info: MAGIC });
            push_pair(out, KeyInput { vk: 0, scan: lo, flags: UNICODE, extra_info: MAGIC }, KeyInput { vk: 0, scan: lo, flags: UNICODE | KEYUP, extra_info: MAGIC });
            proof {
                lemma_unicode_inputs_append(before, seq![hi, lo]);
                assert(utf16(c) =~= seq![hi, lo]);
                assert(seq![hi].drop_last() =~= Seq::<u16>::empty());
                assert(unicode_inputs(Seq::<u16>::empty()) =~= Seq::<KeyInput>::empty());
                assert(unicode_inputs(seq![hi]) =~= unicode_pair(hi));
                assert(seq![hi, lo].drop_last() =~= seq![hi]);
                assert(unicode_inputs(seq![hi, lo]) =~= unicode_pair(hi) + unicode_pair(lo));
            }
        }
        assert(out@ =~= start + unicode_inputs(utf16_of(v@.take(i + 1))));
        i = i + 1;
    }
    assert(v@.take(v.len() as int) =~= v@);
}

proof fn lemma_unicode_inputs_append(a: Seq<u16>, b: Seq<u16>)
    ensures
        unicode_inputs(a + b) == unicode_inputs(a) + unicode_inputs(b),
    decreases b.len(),
{
    if b.len() == 0 {
        assert(a + b =~= a);
        assert(unicode_inputs(b) =~= Seq::<KeyInput>::empty());
        assert(unicode_inputs(a) + unicode_inputs(b) =~= unicode_inputs(a));
    } else {
        lemma_unicode_inputs_append(a, b.drop_last());
        assert((a + b).drop_last() =~= a + b.drop_last());
        assert(unicode_inputs(a + b) =~= unicode_inputs(a) + unicode_inputs(b));
    }
}

/// Unicode packets that type `text`.
pub fn text_inputs(text: &str) -> (r: Vec<KeyInput>)
    ensures
        r@ == unicode_inputs(utf16_of(text@)),
{
    let mut out: Vec<KeyInput> = Vec::new();
    append_units(&mut out, text);
    out
}

/// One batch that erases `erase` characters with Backspace and types `text`
/// and then `trailing` as Unicode packets.
pub fn replacement_inputs(erase: usize, text: &str, trailing: &str) -> (r: Vec<KeyInput>)
    ensures
        r@ == repeat(vk_pair(VK_BACK), erase as nat) + unicode_inputs(utf16_of(text@)) + unicode_inputs(
            utf16_of(trailing@),
        ),
{
    let mut out: Vec<KeyInput> = Vec::new();
    let mut i: usize = 0;
    while i < erase
        invariant
            i <= erase,
            out@ == repeat(vk_pair(VK_BACK), i as nat),
        decreases erase - i,
    {
        push_pair(&mut out, KeyInput { vk: VK_BACK, scan: 0, flags: 0, extra_info: MAGIC }, KeyInput { vk: VK_BACK, scan: 0, flags: KEYUP, extra_info: MAGIC });
        i = i + 1;
    }
    append_units(&mut out, text);
    append_units(&mut out, trailing);
    out
}

fn physical_char_inputs(ch: char, caps_lock_on: bool) -> (r: Option<Vec<KeyInput>>)
    ensures
        match r {
            Some(v) => physical_char(ch, caps_lock_on) == Some(v@),
            None => physical_char(ch, caps_lock_on) is None,
        },
{
    let mut out: Vec<KeyInput> = Vec::new();
    if ch == ' ' {
        let s = SC_SPACE as u16;
        push_pair(&mut out, KeyInput { vk: 0, scan: s, flags: SCANCODE, extra_info: MAGIC }, KeyInput { vk: 0, scan: s, flags: SCANCODE | KEYUP, extra_info: MAGIC });
        return Some(out);
    }
    let lang = if is_letter_of(ch, Lang::En) {
        Lang::En
    } else if is_letter_of(ch, Lang::Ru) {
        Lang::Ru
    } else {
        return None;
    };
    let key = match char_to_key(ch, lang) {
        Some(k) => k,
        None => {
            return None;
        },
    };
    let scan = match scan_of(key) {
        Some(s) => s,
        None => {
            return None;
        },
    };
    let desired_uppercase = ch != to_lower(ch);
    let shifted = desired_uppercase != caps_lock_on;
    if shifted {
        out.push(KeyInput { vk: 0, scan: SC_SHIFT, flags: SCANCODE, extra_info: MAGIC });
    }
    push_pair(&mut out, KeyInput { vk: 0, scan, flags: SCANCODE, extra_info: MAGIC }, KeyInput { vk: 0, scan, flags: SCANCODE | KEYUP, extra_info: MAGIC });
    if shifted {
        out.push(KeyInput { vk: 0, scan: SC_SHIFT, flags: SCANCODE | KEYUP, extra_info: MAGIC });
    }
    proof {
        if shifted {
            assert(out@ =~= seq![KeyInput { vk: 0, scan: SC_SHIFT, flags: SCANCODE, extra_info: MAGIC }] + scan_pair(scan) + seq![
                KeyInput { vk: 0, scan: SC_SHIFT, flags: SCANCODE | KEYUP, extra_info: MAGIC },
            ]);
        } else {
            assert(out@ =~= scan_pair(scan));
        }
    }
    Some(out)
}

/// The whole physical replacement: erase with the Backspace scan code, then
/// the physical keystrokes of `text` and `trailing`; `None` when any char
/// cannot be typed physically, so that the caller falls back to the Unicode
/// batch as a whole.
pub fn physical_replacement_inputs(erase: usize, text: &str, trailing: &str, caps_lock_on: bool) -> (r: Option<
    Vec<KeyInput>,
>)
    ensures
        match physical_text(text@ + trailing@, caps_lock_on) {
            Some(keys) => r matches Some(v) && v@ == repeat(scan_pair(SC_BACKSPACE as u16), erase as nat) + keys,
            None => r is None,
        },
{
    let mut out: Vec<KeyInput> = Vec::new();
    let b = SC_BACKSPACE as u16;
    let mut i: usize = 0;
    while i < erase
        invariant
            i <= erase,
            b == SC_BACKSPACE as u16,
            out@ == repeat(scan_pair(b), i as nat),
        decreases erase - i,
    {
        push_pair(&mut out, KeyInput { vk: 0, scan: b, flags: SCANCODE, extra_info: MAGIC }, KeyInput { vk: 0, scan: b, flags: SCANCODE | KEYUP, extra_info: MAGIC });
        i = i + 1;
    }
    let t = chars_of(text);
    let u = chars_of(trailing);
    let mut all: Vec<char> = t;
    let mut k: usize = 0;
    let ghost tv = text@;
    while k < u.len()
        invariant
            k <= u.len(),
            u@ == trailing@,
            all@ == tv + u@.take(k as int),
        decreases u.len() - k,
    {
        all.push(u[k]);
        assert(all@ =~= tv + u@.take(k + 1));
        k = k + 1;
    }
    assert(u@.take(u.len() as int) =~= u@);
    assert(all@ =~= text@ + trailing@);
    let ghost prefix = out@;
    let mut j: usize = 0;
    while j < all.len()
        invariant
            j <= all.len(),
            prefix == repeat(scan_pair(SC_BACKSPACE as u16), erase as nat),
            all@ == text@ + trailing@,
            physical_text(all@.take(j as int), caps_lock_on) matches Some(keys) && out@ == prefix + keys,
        decreases all.len() - j,
    {
        let c = all[j];
        assert(all@.take(j + 1).drop_last() =~= all@.take(j as int));
        assert(all@.take(j + 1).last() == c);
        match physical_char_inputs(c, caps_lock_on) {
            Some(v) => {
                let mut q: usize = 0;
                let ghost before = out@;
                while q < v.len()
                    invariant
                        q <= v.len(),
                        out@ == before + v@.take(q as int),
                    decreases v.len() - q,
                {
                    out.push(v[q]);
                    assert(out@ =~= before + v@.take(q + 1));
                    q = q + 1;
                }
                assert(v@.take(v.len() as int) =~= v@);
                assert(out@ =~= prefix + physical_text(all@.take(j + 1), caps_lock_on)->0);
            },
            None => {
                proof {
                    assert(physical_text(all@.take(j + 1), caps_lock_on) is None);
                    lemma_physical_text_none_extends(all@, j as int + 1, caps_lock_on);
                    assert(all@.take(all@.len() as int) =~= all@);
                }
                return None;
            },
        }
        j = j + 1;
    }
    assert(all@.take(all.len() as int) =~= all@);
    Some(out)
}

/// A text with an untypable prefix is untypable.
proof fn lemma_physical_text_none_extends(s: Seq<char>, j: int, caps_lock_on: bool)
    requires
        0 <= j <= s.len(),
        physical_text(s.take(j), caps_lock_on) is None,
    ensures
        physical_text(s, caps_lock_on) is None,
    decreases s.len() - j,
{
    if j < s.len() {
        assert(s.take(j + 1).drop_last() =~= s.take(j));
        lemma_physical_text_none_extends(s, j + 1, caps_lock_on);
    } else {
        assert(s.take(j) =~= s);
    }
}

/// The replacement batch for the focused process `app`: physical for
/// exactly `notepad++.exe` when every char can be typed physically,
/// Unicode otherwise.
pub fn replacement_inputs_for_app(
    app: Option<&str>,
    erase: usize,
    text: &str,
    trailing: &str,
    caps_lock_on: bool,
) -> (r: (Vec<KeyInput>, InputMode))
    ensures
        (app is Some && app->0@ == notepad_plus_plus() && physical_text(text@ + trailing@, caps_lock_on) is Some)
            ==> r.1 == InputMode::PhysicalScancode && r.0@ == repeat(scan_pair(SC_BACKSPACE as u16), erase as nat)
            + physical_text(text@ + trailing@, caps_lock_on)->0,
        !(app is Some && app->0@ == notepad_plus_plus() && physical_text(text@ + trailing@, caps_lock_on) is Some)
            ==> r.1 == InputMode::Unicode && r.0@ == repeat(vk_pair(VK_BACK), erase as nat) + unicode_inputs(
            utf16_of(text@),
        ) + unicode_inputs(utf16_of(trailing@)),
{
    match app {
        Some(a) => {
            let v = chars_of(a);
            let n = ['n', 'o', 't', 'e', 'p', 'a', 'd', '+', '+', '.', 'e', 'x', 'e'];
            assert(n@ =~= notepad_plus_plus());
            if chars_eq(&v, &n) {
                match physical_replacement_inputs(erase, text, trailing, caps_lock_on) {
                    Some(inputs) => {
                        return (inputs, InputMode::PhysicalScancode);
                    },
                    None => {},
                }
            }
        },
        None => {},
    }
    (replacement_inputs(erase, text, trailing), InputMode::Unicode)
}

/// The Backspace batch that erases `n` characters.
pub fn backspace_inputs(n: usize) -> (r: Vec<KeyInput>)
    ensures
        r@ == repeat(vk_pair(VK_BACK), n as nat),
{
    let mut out: Vec<KeyInput> = Vec::new();
    let mut i: usize = 0;
    while i < n
        invariant
            i <= n,
            out@ == repeat(vk_pair(VK_BACK), i as nat),
        decreases n - i,
    {
        push_pair(&mut out, KeyInput { vk: VK_BACK, scan: 0, flags: 0, extra_info: MAGIC }, KeyInput { vk: VK_BACK, scan: 0, flags: KEYUP, extra_info: MAGIC });
        i = i + 1;
    }
    out
}

/// The batch of one real Tab press.
pub fn tab_inputs() -> (r: Vec<KeyInput>)
    ensures
        r@ == vk_pair(VK_TAB),
{
    let mut out: Vec<KeyInput> = Vec::new();
    push_pair(&mut out, KeyInput { vk: VK_TAB, scan: 0, flags: 0, extra_info: MAGIC }, KeyInput { vk: VK_TAB, scan: 0, flags: KEYUP, extra_info: MAGIC });
    out
}

} // verus!
