//! Hotkey matching and "press a key to assign" capture, shared by the
//! capture backends. Keys are identified by their canonical *name* (letters
//! through the physical key, named keys through the native key symbol), so
//! matching does not depend on machine-specific keycodes.

use vstd::prelude::*;

use crate::hotkey::{name_pause, HotkeySpec, HotkeyView};
use crate::text::{chars_of, eq_ignore_ascii_case, eq_ignoring_ascii_case};

verus! {

/// Modifier state at the moment of a key-press.
#[derive(Clone, Copy, Debug, PartialEq, Eq, Structural)]
pub struct Mods {
    pub shift: bool,
    pub ctrl: bool,
    pub alt: bool,
    pub meta: bool,
}

/// The modifiers that make a chord: Control, Alt and Meta (not Shift).
pub open spec fn chord(m: Mods) -> bool {
    m.ctrl || m.alt || m.meta
}

/// Pause/Break emits a phantom Control on many keyboards, so Control is
/// ignored for the key named exactly `PAUSE`.
pub open spec fn normalized(name: Option<Seq<char>>, m: Mods) -> Mods {
    if name == Some(name_pause()) {
        Mods { ctrl: false, ..m }
    } else {
        m
    }
}

/// A name of exactly one byte: a single ASCII character.
pub open spec fn one_byte(name: Seq<char>) -> bool {
    name.len() == 1 && (name[0] as u32) < 128
}

/// The hotkey a capture assigns for a key named `name` pressed with `m`:
/// a named key, or any key with a chord modifier, but never a bare letter.
pub open spec fn captured(name: Seq<char>, m: Mods) -> Option<HotkeyView> {
    let n = normalized(Some(name), m);
    if one_byte(name) && !chord(n) {
        None
    } else {
        Some(HotkeyView { ctrl: n.ctrl, shift: n.shift, alt: n.alt, meta: n.meta, key: name })
    }
}

/// Whether a key named `name` pressed with `m` is the hotkey `spec`: the name
/// matches ignoring ASCII case and every modifier agrees, except Control for
/// Pause.
pub open spec fn hotkey_matches(spec: HotkeyView, name: Seq<char>, m: Mods) -> bool {
    let ignore_ctrl = eq_ignore_ascii_case(name, name_pause());
    &&& eq_ignore_ascii_case(name, spec.key)
    &&& (ignore_ctrl || m.ctrl == spec.ctrl)
    &&& m.shift == spec.shift
    &&& m.alt == spec.alt
    &&& m.meta == spec.meta
}

/// The view of an optional name.
pub open spec fn name_view(name: Option<String>) -> Option<Seq<char>> {
    match name {
        Some(s) => Some(s@),
        None => None,
    }
}

fn is_pause(name: &String) -> (r: bool)
    ensures
        r == (name@ == name_pause()),
{
    let v = chars_of(name.as_str());
    let p = ['P', 'A', 'U', 'S', 'E'];
    let r = crate::text::chars_eq(&v, &p);
    assert(p@ =~= name_pause());
    r
}

/// Drop Control for the Pause key.
pub fn norm_mods(name: &Option<String>, m: Mods) -> (r: Mods)
    ensures
        r == normalized(name_view(*name), m),
{
    match name {
        Some(n) => {
            if is_pause(n) {
                Mods { ctrl: false, ..m }
            } else {
                m
            }
        },
        None => m,
    }
}

/// The hotkey that "press a key to assign" records for a key named `name`
/// pressed with `m`; `None` for unnamed keys and bare letters.
pub fn capture_spec(name: &Option<String>, m: Mods) -> (r: Option<HotkeySpec>)
    ensures
        match name_view(*name) {
            Some(n) => match r {
                Some(h) => captured(n, m) == Some(h@),
                None => captured(n, m) is None,
            },
            None => r is None,
        },
{
    match name {
        None => None,
        Some(n) => {
            let nm = norm_mods(name, m);
            let has_mod = nm.ctrl || nm.alt || nm.meta;
            let v = chars_of(n.as_str());
            let single = v.len() == 1 && (v[0] as u32) < 128;
            if single && !has_mod {
                None
            } else {
                Some(HotkeySpec { ctrl: nm.ctrl, shift: nm.shift, alt: nm.alt, meta: nm.meta, key: n.clone() })
            }
        },
    }
}

/// Whether a key named `name` pressed with `m` is the hotkey `spec`.
pub fn matches_spec(spec: &HotkeySpec, name: &Option<String>, m: Mods) -> (r: bool)
    ensures
        r == match name_view(*name) {
            Some(n) => hotkey_matches(spec@, n, m),
            None => false,
        },
{
    match name {
        None => false,
        Some(n) => {
            let v = chars_of(n.as_str());
            let p = ['P', 'A', 'U', 'S', 'E'];
            assert(p@ =~= name_pause());
            let ignore_ctrl = eq_ignoring_ascii_case(&v, &p);
            let k = chars_of(spec.key.as_str());
            eq_ignoring_ascii_case(&v, &k) && (ignore_ctrl || m.ctrl == spec.ctrl) && m.shift
                == spec.shift && m.alt == spec.alt && m.meta == spec.meta
        },
    }
}

/// A hotkey recorded by capture is matched again by the same key and
/// modifiers (this is what makes a freshly assigned hotkey work at once).
pub proof fn law_captured_hotkey_matches(name: Seq<char>, m: Mods)
    requires
        captured(name, m) is Some,
    ensures
        hotkey_matches(captured(name, m)->0, name, m),
{
    let h = captured(name, m)->0;
    assert(eq_ignore_ascii_case(name, h.key));
}

} // verus!
