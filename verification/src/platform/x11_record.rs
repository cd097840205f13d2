//! Decision logic of the X11 RECORD capture: each recorded 32-byte core event
//! is turned into an engine event, a captured hotkey, or nothing. The
//! conversion hotkey is matched by key *name* (letters through the physical
//! key, named keys through their keysym), which is robust across keymaps.

use vstd::prelude::*;

use crate::hotkey::{HotkeySpec, HotkeyView};
use crate::keycode::PhysKey;
use crate::platform::capture::{capture_spec, captured, chord, hotkey_matches, matches_spec, name_view, Mods};
use crate::platform::keynames::letter_key_name;
use crate::platform::suppress::{counters_after, filter_verdict, Filter, Suppress, SuppressView};
use crate::platform::x11_keymap::{
    boundary_code, is_boundary, is_modifier_keysym, key_letter_name, keysym_name, named_keysym, phys_at, phys_of,
    KC_BACKSPACE, KC_SPACE, X_OFFSET,
};
use crate::platform::KeyKind;
use crate::text::string_from;

verus! {

/// Core event code of a key press.
pub const KEY_PRESS_EVENT: u8 = 2;

/// Core event code of a button press.
pub const BUTTON_PRESS_EVENT: u8 = 4;

/// Shift bit of the X11 key-button state.
pub const SHIFT_MASK: u16 = 1;

/// Control bit of the X11 key-button state.
pub const CONTROL_MASK: u16 = 4;

/// Mod1 (Alt) bit of the X11 key-button state.
pub const ALT_MASK: u16 = 8;

/// Mod4 (Super) bit of the X11 key-button state.
pub const SUPER_MASK: u16 = 64;

/// The modifiers in an X11 key-button state.
pub open spec fn mods_of(state: u16) -> Mods {
    Mods {
        shift: state & SHIFT_MASK != 0,
        ctrl: state & CONTROL_MASK != 0,
        alt: state & ALT_MASK != 0,
        meta: state & SUPER_MASK != 0,
    }
}

/// Decode the modifiers of an X11 key-button state.
pub fn mods(state: u16) -> (r: Mods)
    ensures
        r == mods_of(state),
{
    Mods {
        shift: state & SHIFT_MASK != 0,
        ctrl: state & CONTROL_MASK != 0,
        alt: state & ALT_MASK != 0,
        meta: state & SUPER_MASK != 0,
    }
}

/// The first named keysym among the `per` keysyms of a keycode, starting at
/// `off`; `base` is the index of the keycode's first keysym.
pub open spec fn first_named(syms: Seq<u32>, base: int, per: nat, off: nat) -> Option<Seq<char>>
    decreases per - off,
{
    if off >= per {
        None
    } else if base + off < syms.len() && keysym_name(syms[base + off]) is Some {
        keysym_name(syms[base + off])
    } else {
        first_named(syms, base, per, off + 1)
    }
}

/// Whether one of the `per` keysyms of a keycode, from `off` on, is a
/// modifier.
pub open spec fn any_modifier(syms: Seq<u32>, base: int, per: nat, off: nat) -> bool
    decreases per - off,
{
    if off >= per {
        false
    } else if base + off < syms.len() && ((0xffe1 <= syms[base + off] && syms[base + off] <= 0xffee)
        || syms[base + off] == 0xfe03 || syms[base + off] == 0xff7f) {
        true
    } else {
        any_modifier(syms, base, per, off + 1)
    }
}

/// What the capture thread does with one recorded event.
#[derive(Debug)]
pub enum RecordAction {
    /// Nothing: not a key press, our own echo, or a swallowed key.
    Ignore,
    /// Forward this event to the engine.
    Send(KeyKind),
    /// "Press a key to assign" captured this hotkey.
    Capture(HotkeySpec),
}

/// The cached keyboard mapping used to resolve keycodes to key names.
pub struct X11Keymap {
    keysyms: Vec<u32>,
    per: u8,
    min_keycode: u8,
}

impl X11Keymap {
    /// All keysyms, `per` for each keycode from `min_keycode` on.
    pub closed spec fn syms(&self) -> Seq<u32> {
        self.keysyms@
    }

    /// Keysyms per keycode.
    pub closed spec fn per_code(&self) -> u8 {
        self.per
    }

    /// The first keycode of the mapping.
    pub closed spec fn min_code(&self) -> u8 {
        self.min_keycode
    }

    /// A mapping with no keysyms (before the server's mapping is loaded):
    /// only letters have names.
    pub fn empty() -> (r: Self)
        ensures
            r.syms().len() == 0,
            r.per_code() == 0,
            r.min_code() == X_OFFSET,
    {
        X11Keymap { keysyms: Vec::new(), per: 0, min_keycode: X_OFFSET }
    }

    /// The mapping the server reported.
    pub fn new(keysyms: Vec<u32>, per: u8, min_keycode: u8) -> (r: Self)
        ensures
            r.syms() == keysyms@,
            r.per_code() == per,
            r.min_code() == min_keycode,
    {
        X11Keymap { keysyms, per, min_keycode }
    }

    /// The canonical hotkey name of a keycode: letters through the physical
    /// key, otherwise the first recognized named keysym of the keycode.
    pub open spec fn name_at(&self, keycode: u8) -> Option<Seq<char>> {
        if phys_at(keycode) is Some && letter_key_name(phys_at(keycode)->0) is Some {
            letter_key_name(phys_at(keycode)->0)
        } else if self.per_code() > 0 && keycode >= self.min_code() {
            first_named(
                self.syms(),
                (keycode - self.min_code()) * self.per_code(),
                self.per_code() as nat,
                0,
            )
        } else {
            None
        }
    }

    /// Whether a keycode carries a modifier keysym.
    pub open spec fn modifier_at(&self, keycode: u8) -> bool {
        self.per_code() > 0 && keycode >= self.min_code() && any_modifier(
            self.syms(),
            (keycode - self.min_code()) * self.per_code(),
            self.per_code() as nat,
            0,
        )
    }

    /// Resolve the canonical hotkey name of a keycode.
    pub fn name_of(&self, keycode: u8) -> (r: Option<String>)
        ensures
            name_view(r) == self.name_at(keycode),
    {
        match key_letter_name(keycode) {
            Some(n) => {
                return Some(n);
            },
            None => {},
        }
        if self.per > 0 && keycode >= self.min_keycode {
            let per = self.per as usize;
            let d = (keycode - self.min_keycode) as usize;
            assert(d * per <= 255 * 255) by (nonlinear_arith)
                requires
                    d <= 255,
                    per <= 255,
            ;
            let base: usize = d * per;
            assert(phys_at(keycode) is None || letter_key_name(phys_at(keycode)->0) is None);
            assert(self.name_at(keycode) == first_named(self.syms(), base as int, per as nat, 0));
            let mut off: usize = 0;
            while off < per
                invariant
                    per == self.per_code() as nat,
                    base == (keycode - self.min_code()) * self.per_code(),
                    base <= 255 * 255,
                    off <= per,
                    self.name_at(keycode) == first_named(self.syms(), base as int, per as nat, 0),
                    first_named(self.syms(), base as int, per as nat, 0) == first_named(
                        self.syms(),
                        base as int,
                        per as nat,
                        off as nat,
                    ),
                decreases per - off,
            {
                if base + off < self.keysyms.len() {
                    match named_keysym(self.keysyms[base + off]) {
                        Some(name) => {
                            assert(first_named(self.syms(), base as int, per as nat, off as nat)
                                == keysym_name(self.syms()[base + off]));
                            return Some(string_from(name));
                        },
                        None => {},
                    }
                }
                off = off + 1;
            }
        }
        None
    }

    /// Whether a keycode is a modifier key (Control, Shift, Alt, Super, ...).
    pub fn is_modifier(&self, keycode: u8) -> (r: bool)
        ensures
            r == self.modifier_at(keycode),
    {
        if self.per == 0 || keycode < self.min_keycode {
            return false;
        }
        let per = self.per as usize;
        let d = (keycode - self.min_keycode) as usize;
        assert(d * per <= 255 * 255) by (nonlinear_arith)
            requires
                d <= 255,
                per <= 255,
        ;
        let base: usize = d * per;
        let mut off: usize = 0;
        while off < per
            invariant
                per == self.per_code() as nat,
                base == (keycode - self.min_code()) * self.per_code(),
                base <= 255 * 255,
                off <= per,
                self.modifier_at(keycode) == any_modifier(self.syms(), base as int, per as nat, 0),
                any_modifier(self.syms(), base as int, per as nat, 0) == any_modifier(
                    self.syms(),
                    base as int,
                    per as nat,
                    off as nat,
                ),
            decreases per - off,
        {
            if base + off < self.keysyms.len() && is_modifier_keysym(self.keysyms[base + off]) {
                assert(any_modifier(self.syms(), base as int, per as nat, off as nat));
                return true;
            }
            off = off + 1;
        }
        false
    }

    /// The engine event of a key press, given the conversion hotkey.
    pub open spec fn kind_at(&self, keycode: u8, state: u16, hotkey: HotkeyView) -> Option<KeyKind> {
        let m = mods_of(state);
        let name = self.name_at(keycode);
        if name is Some && hotkey_matches(hotkey, name->0, m) {
            Some(KeyKind::Hotkey)
        } else if self.modifier_at(keycode) {
            None
        } else if chord(m) {
            Some(KeyKind::Reset)
        } else if phys_at(keycode) is Some {
            Some(KeyKind::Letter { key: phys_at(keycode)->0, shift: m.shift })
        } else if keycode == KC_BACKSPACE {
            Some(KeyKind::Backspace)
        } else if keycode == KC_SPACE {
            Some(KeyKind::Boundary { sep: Some(' ') })
        } else if keycode >= X_OFFSET && boundary_code((keycode - X_OFFSET) as u8) {
            Some(KeyKind::Boundary { sep: None })
        } else {
            Some(KeyKind::Reset)
        }
    }

    /// Classify a key press for the engine: the hotkey first, then bare
    /// modifiers (ignored), chords (reset), letters, Backspace, Space, other
    /// boundaries, and anything else (reset).
    pub fn classify(&self, keycode: u8, state: u16, hotkey: &HotkeySpec) -> (r: Option<KeyKind>)
        ensures
            r == self.kind_at(keycode, state, hotkey@),
    {
        let m = mods(state);
        let name = self.name_of(keycode);
        if matches_spec(hotkey, &name, m) {
            return Some(KeyKind::Hotkey);
        }
        if self.is_modifier(keycode) {
            return None;
        }
        if m.ctrl || m.alt || m.meta {
            return Some(KeyKind::Reset);
        }
        match phys_of(keycode) {
            Some(key) => {
                return Some(KeyKind::Letter { key, shift: m.shift });
            },
            None => {},
        }
        if keycode == KC_BACKSPACE {
            return Some(KeyKind::Backspace);
        }
        if keycode == KC_SPACE {
            return Some(KeyKind::Boundary { sep: Some(' ') });
        }
        if is_boundary(keycode) {
            return Some(KeyKind::Boundary { sep: None });
        }
        Some(KeyKind::Reset)
    }

    /// Decide about one recorded 32-byte core event observed at clock
    /// reading `now_ms`. A click with buttons 1 to 3 resets the word (it
    /// moves the caret); wheel buttons and non-press events are ignored. A
    /// key press first goes through echo suppression; then, while the accept
    /// key is intercepted (`accept` is `Some`), its recorded press is dropped
    /// (the interception already delivered it); in capture mode the key
    /// becomes the captured hotkey (or is swallowed); otherwise it is
    /// classified against the conversion hotkey.
    pub fn decide(
        &self,
        data: &[u8],
        suppress: &mut Suppress,
        now_ms: u64,
        accept: Option<&HotkeySpec>,
        capturing: bool,
        hotkey: &HotkeySpec,
    ) -> (r: RecordAction)
        requires
            data@.len() >= 32,
            old(suppress).wf(),
        ensures
            final(suppress).wf(),
            ({
                let response = data@[0] & 0x7f;
                let keycode = data@[1];
                let state = (data@[28] + 256 * data@[29]) as u16;
                let m = mods_of(state);
                let name = self.name_at(keycode);
                let v = old(suppress).view();
                if response == BUTTON_PRESS_EVENT {
                    &&& final(suppress).view() == v
                    &&& if 1 <= data@[1] <= 3 {
                        r matches RecordAction::Send(k) && k == KeyKind::Reset
                    } else {
                        r is Ignore
                    }
                } else if response != KEY_PRESS_EVENT {
                    final(suppress).view() == v && r is Ignore
                } else {
                    &&& final(suppress).view() == (SuppressView { pending: counters_after(v, keycode, now_ms), ..v })
                    &&& if filter_verdict(v, keycode, now_ms) != Filter::Real {
                        r is Ignore
                    } else if accept is Some && name is Some && hotkey_matches(accept->0@, name->0, m) {
                        r is Ignore
                    } else if capturing {
                        match r {
                            RecordAction::Capture(h) => name is Some && captured(name->0, m) == Some(h@),
                            RecordAction::Ignore => name is None || captured(name->0, m) is None,
                            RecordAction::Send(_) => false,
                        }
                    } else {
                        match r {
                            RecordAction::Send(k) => self.kind_at(keycode, state, hotkey@) == Some(k),
                            RecordAction::Ignore => self.kind_at(keycode, state, hotkey@) is None,
                            RecordAction::Capture(_) => false,
                        }
                    }
                }
            }),
    {
        let response = data[0] & 0x7f;
        if response == BUTTON_PRESS_EVENT {
            let button = data[1];
            if 1 <= button && button <= 3 {
                return RecordAction::Send(KeyKind::Reset);
            }
            return RecordAction::Ignore;
        }
        if response != KEY_PRESS_EVENT {
            return RecordAction::Ignore;
        }
        let keycode = data[1];
        let lo = data[28];
        let hi = data[29];
        let state: u16 = (lo as u16) | ((hi as u16) << 8);
        assert(((lo as u16) | ((hi as u16) << 8)) == (lo + 256 * hi) as u16) by (bit_vector);
        match suppress.filter_at(keycode, now_ms) {
            Filter::Real => {},
            _ => {
                return RecordAction::Ignore;
            },
        }
        let m = mods(state);
        let name = self.name_of(keycode);
        match accept {
            Some(a) => {
                if matches_spec(a, &name, m) {
                    return RecordAction::Ignore;
                }
            },
            None => {},
        }
        if capturing {
            return match capture_spec(&name, m) {
                Some(spec) => RecordAction::Capture(spec),
                None => RecordAction::Ignore,
            };
        }
        match self.classify(keycode, state, hotkey) {
            Some(kind) => RecordAction::Send(kind),
            None => RecordAction::Ignore,
        }
    }
}

} // verus!
