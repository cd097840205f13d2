//! What the X11 injector taps. It replays *physical keycodes*: the corrector
//! has already switched the XKB group to the target language, so tapping
//! the key that produces each character in that group (with Shift for
//! uppercase) types it, without any runtime keymap changes. Also the
//! modifier masks of the accept-key grab.

use vstd::prelude::*;

use crate::hotkey::{HotkeySpec, HotkeyView};
use crate::keycode::PhysKey;
use crate::layout::{char_to_key, is_letter_of, key_for_char, letter_of, to_lower, Lang};
use crate::platform::x11_keymap::{evdev_code, keycode_of, KC_BACKSPACE, KC_SPACE, X_OFFSET};
use crate::text::chars_of;
use crate::unicode::lower_char;

verus! {

/// X11 keycode of Tab (evdev 15).
pub const KC_TAB: u8 = 23;

/// Shift bit of an X11 modifier mask.
pub const SHIFT_MASK: u16 = 1;

/// Caps Lock bit.
pub const LOCK_MASK: u16 = 2;

/// Control bit.
pub const CONTROL_MASK: u16 = 4;

/// Mod1 (Alt) bit.
pub const ALT_MASK: u16 = 8;

/// Mod2 (Num Lock) bit.
pub const NUMLOCK_MASK: u16 = 16;

/// Mod4 (Super) bit.
pub const SUPER_MASK: u16 = 64;

/// One key tap of an injected batch.
#[derive(Clone, Copy, Debug, PartialEq, Eq, Structural)]
pub struct Tap {
    /// The keycode to press and release.
    pub keycode: u8,
    /// Hold Shift around the tap.
    pub shift: bool,
    /// Release the key first: a correction is triggered by a real Space
    /// press that may still be held, and XTEST would then emit no press.
    pub release_first: bool,
}

/// The tap that types `c` in the active group: Space, or the key of `c`'s
/// lowercase form in the layout where `c` is a letter (Russian first, else
/// English), shifted for uppercase; `None` for chars with no key.
pub open spec fn char_tap(c: char) -> Option<Tap> {
    if c == ' ' {
        Some(Tap { keycode: KC_SPACE, shift: false, release_first: true })
    } else {
        let lang = if letter_of(c, Lang::Ru) {
            Lang::Ru
        } else {
            Lang::En
        };
        let lower = lower_char(c);
        match key_for_char(lower, lang) {
            Some(k) => Some(Tap { keycode: (evdev_code(k) + X_OFFSET) as u8, shift: c != lower, release_first: false }),
            None => None,
        }
    }
}

/// The taps of a text; chars without a key are skipped.
pub open spec fn text_taps(s: Seq<char>) -> Seq<Tap>
    decreases s.len(),
{
    if s.len() == 0 {
        seq![]
    } else {
        text_taps(s.drop_last()) + match char_tap(s.last()) {
            Some(t) => seq![t],
            None => seq![],
        }
    }
}

/// `n` Backspace taps.
pub open spec fn backspace_taps(n: nat) -> Seq<Tap>
    decreases n,
{
    if n == 0 {
        seq![]
    } else {
        backspace_taps((n - 1) as nat).push(Tap { keycode: KC_BACKSPACE, shift: false, release_first: false })
    }
}

/// The tap that types `c`, if it has a key.
pub fn tap_for_char(c: char) -> (r: Option<Tap>)
    ensures
        r == char_tap(c),
{
    if c == ' ' {
        return Some(Tap { keycode: KC_SPACE, shift: false, release_first: true });
    }
    let lang = if is_letter_of(c, Lang::Ru) {
        Lang::Ru
    } else {
        Lang::En
    };
    let lower = to_lower(c);
    match char_to_key(lower, lang) {
        Some(key) => Some(Tap { keycode: keycode_of(key), shift: c != lower, release_first: false }),
        None => None,
    }
}

fn push_text_taps(out: &mut Vec<Tap>, text: &str)
    ensures
        final(out)@ == old(out)@ + text_taps(text@),
{
    let v = chars_of(text);
    let ghost start = out@;
    let mut i: usize = 0;
    while i < v.len()
        invariant
            i <= v.len(),
            v@ == text@,
            out@ == start + text_taps(v@.take(i as int)),
        decreases v.len() - i,
    {
        assert(v@.take(i + 1).drop_last() =~= v@.take(i as int));
        assert(v@.take(i + 1).last() == v@[i as int]);
        match tap_for_char(v[i]) {
            Some(t) => {
                out.push(t);
            },
            None => {},
        }
        assert(out@ =~= start + text_taps(v@.take(i + 1)));
        i = i + 1;
    }
    assert(v@.take(v.len() as int) =~= v@);
}

/// The taps that type `text`.
pub fn type_taps(text: &str) -> (r: Vec<Tap>)
    ensures
        r@ == text_taps(text@),
{
    let mut out: Vec<Tap> = Vec::new();
    push_text_taps(&mut out, text);
    assert(out@ =~= text_taps(text@));
    out
}

/// The taps of one replacement batch: `erase` Backspaces, then `text` and
/// `trailing`.
pub fn replacement_taps(erase: usize, text: &str, trailing: &str) -> (r: Vec<Tap>)
    ensures
        r@ == backspace_taps(erase as nat) + text_taps(text@) + text_taps(trailing@),
{
    let mut out: Vec<Tap> = Vec::new();
    let mut i: usize = 0;
    while i < erase
        invariant
            i <= erase,
            out@ == backspace_taps(i as nat),
        decreases erase - i,
    {
        out.push(Tap { keycode: KC_BACKSPACE, shift: false, release_first: false });
        i = i + 1;
    }
    push_text_taps(&mut out, text);
    push_text_taps(&mut out, trailing);
    out
}

/// The modifier mask of a hotkey.
pub open spec fn mask_of(spec: HotkeyView) -> u16 {
    (if spec.shift { SHIFT_MASK } else { 0 }) | (if spec.ctrl { CONTROL_MASK } else { 0 }) | (if spec.alt {
        ALT_MASK
    } else {
        0
    }) | (if spec.meta { SUPER_MASK } else { 0 })
}

/// The modifier mask the accept key is grabbed with.
pub fn base_mask(spec: &HotkeySpec) -> (r: u16)
    ensures
        r == mask_of(spec@),
{
    let s: u16 = if spec.shift { SHIFT_MASK } else { 0 };
    let c: u16 = if spec.ctrl { CONTROL_MASK } else { 0 };
    let a: u16 = if spec.alt { ALT_MASK } else { 0 };
    let m: u16 = if spec.meta { SUPER_MASK } else { 0 };
    s | c | a | m
}

/// The lock-state variants added to every grab, so the accept key works
/// whatever Caps Lock and Num Lock say.
pub fn lock_variants() -> (r: [u16; 4])
    ensures
        r@ == seq![0u16, LOCK_MASK, NUMLOCK_MASK, LOCK_MASK | NUMLOCK_MASK],
{
    [0, LOCK_MASK, NUMLOCK_MASK, LOCK_MASK | NUMLOCK_MASK]
}

} // verus!
