//! Decision logic of the Windows low-level keyboard hook: the edge state that
//! turns one physical hotkey press (with any number of auto-repeated
//! key-downs) into exactly one hotkey event on key-up, and the classification
//! of a key-press into an engine event.

use vstd::prelude::*;

use crate::keycode::PhysKey;
use crate::hotkey::{HotkeySpec, HotkeyView};
use crate::platform::capture::{capture_spec, captured, chord, hotkey_matches, matches_spec, name_view, Mods};
use crate::platform::win_keymap::{is_boundary, phys_of, scan_boundary, scan_letter, SC_BACKSPACE, SC_SPACE};
use crate::platform::win_inject::MAGIC;
use crate::platform::KeyKind;

verus! {

/// A key-down of `vk` with the armed code `pending`: whether it is consumed,
/// and the armed code afterwards.
pub open spec fn key_down_step(pending: u32, vk: u32, matches: bool) -> (bool, u32) {
    if vk == 0 {
        (false, pending)
    } else if pending == vk {
        (true, pending)
    } else if !matches {
        (false, pending)
    } else if pending == 0 {
        (true, vk)
    } else {
        (true, pending)
    }
}

/// A key-up of `vk` with the armed code `pending`: whether it emits the
/// hotkey, and the armed code afterwards.
pub open spec fn key_up_step(pending: u32, vk: u32) -> (bool, u32) {
    if vk != 0 && pending == vk {
        (true, 0)
    } else {
        (false, pending)
    }
}

/// One configured-hotkey press is emitted on its physical key-up; all the
/// key-downs of a held key share one pending virtual-key code.
pub struct HotkeyEdgeState {
    pending_vk: u32,
}

impl HotkeyEdgeState {
    /// The virtual-key code whose key-up will emit the hotkey; 0 when none.
    pub closed spec fn pending(&self) -> u32 {
        self.pending_vk
    }

    /// Nothing armed.
    pub fn new() -> (s: Self)
        ensures
            s.pending() == 0,
    {
        HotkeyEdgeState { pending_vk: 0 }
    }

    /// Whether this key-down belongs to an armed hotkey press and must be
    /// neither classified nor emitted. `matches` says whether the key-down,
    /// with the modifiers held at that moment, is the hotkey; a matching
    /// key-down arms the state when nothing else is armed.
    pub fn consume_key_down(&mut self, vk: u32, matches: bool) -> (r: bool)
        ensures
            (r, final(self).pending()) == key_down_step(old(self).pending(), vk, matches),
    {
        if vk == 0 {
            return false;
        }
        if self.pending_vk == vk {
            return true;
        }
        if !matches {
            return false;
        }
        if self.pending_vk == 0 {
            self.pending_vk = vk;
        }
        true
    }

    /// Whether this key-up completes the armed press (and so emits the
    /// hotkey). Modifiers are not consulted, so releasing them first does not
    /// lose the hotkey.
    pub fn emit_on_key_up(&mut self, vk: u32) -> (r: bool)
        ensures
            (r, final(self).pending()) == key_up_step(old(self).pending(), vk),
    {
        if vk != 0 && self.pending_vk == vk {
            self.pending_vk = 0;
            true
        } else {
            false
        }
    }
}

/// Whether a key event is synthetic: tagged with our [`MAGIC`], or flagged
/// as injected by the OS (some paths lose the tag; the flag is the fallback).
pub fn is_injected(extra_info: usize, injected_flag: bool) -> (r: bool)
    ensures
        r == (extra_info == MAGIC || injected_flag),
{
    extra_info == MAGIC || injected_flag
}

/// Whether a virtual-key code is a modifier (Shift, Control, Alt, the Windows
/// keys, Caps Lock, and their left/right variants).
pub open spec fn modifier_vk(vk: u16) -> bool {
    vk == 0x10 || vk == 0x11 || vk == 0x12 || vk == 0x5B || vk == 0x5C || vk == 0x14 || (0xA0 <= vk
        && vk <= 0xA5)
}

/// Whether a virtual-key code is a modifier; pressing one alone must not
/// reset the word buffer.
pub fn is_modifier_vk(vk: u16) -> (r: bool)
    ensures
        r == modifier_vk(vk),
{
    vk == 0x10 || vk == 0x11 || vk == 0x12 || vk == 0x5B || vk == 0x5C || vk == 0x14 || (0xA0 <= vk
        && vk <= 0xA5)
}

/// The engine event of a key-press with scan code `scan` and virtual-key
/// code `vk` under modifiers `m`; `None` for a bare modifier.
pub open spec fn win_kind(scan: u32, vk: u32, m: Mods) -> Option<KeyKind> {
    if modifier_vk(vk as u16) {
        None
    } else if chord(m) {
        Some(KeyKind::Reset)
    } else if scan_letter(scan) is Some {
        Some(KeyKind::Letter { key: scan_letter(scan)->0, shift: m.shift })
    } else if scan == SC_BACKSPACE {
        Some(KeyKind::Backspace)
    } else if scan == SC_SPACE {
        Some(KeyKind::Boundary { sep: Some(' ') })
    } else if scan_boundary(scan) {
        Some(KeyKind::Boundary { sep: None })
    } else {
        Some(KeyKind::Reset)
    }
}

/// Classify a key-press for the engine.
pub fn classify(scan: u32, vk: u32, m: Mods) -> (r: Option<KeyKind>)
    ensures
        r == win_kind(scan, vk, m),
{
    if is_modifier_vk(vk as u16) {
        return None;
    }
    if m.ctrl || m.alt || m.meta {
        return Some(KeyKind::Reset);
    }
    match phys_of(scan) {
        Some(key) => {
            return Some(KeyKind::Letter { key, shift: m.shift });
        },
        None => {},
    }
    if scan == SC_BACKSPACE {
        return Some(KeyKind::Backspace);
    }
    if scan == SC_SPACE {
        return Some(KeyKind::Boundary { sep: Some(' ') });
    }
    if is_boundary(scan) {
        return Some(KeyKind::Boundary { sep: None });
    }
    Some(KeyKind::Reset)
}

/// However many key-downs a held hotkey produces, exactly one hotkey is
/// emitted: a matching key-down arms the state, repeated key-downs (matching
/// or not, since modifiers may already be released) stay consumed, the first
/// key-up emits and disarms, and a second key-up emits nothing.
pub proof fn law_one_hotkey_per_press(vk: u32, repeat_matches: bool)
    requires
        vk != 0,
    ensures
        key_down_step(0, vk, true) == (true, vk),
        key_down_step(vk, vk, repeat_matches) == (true, vk),
        key_up_step(vk, vk) == (true, 0u32),
        key_up_step(0, vk) == (false, 0u32),
{
}

/// A key-up of another key neither emits nor disarms the pending hotkey, and
/// a key-down that does not match never arms.
pub proof fn law_unrelated_keys_leave_hotkey_alone(vk: u32, other: u32)
    requires
        vk != 0,
        other != vk,
    ensures
        key_up_step(vk, other) == (false, vk),
        key_down_step(0, vk, false) == (false, 0u32),
{
}

/// What the hook does with one low-level keyboard event.
#[derive(Debug)]
pub enum HookVerdict {
    /// Pass the event on and send nothing.
    Pass,
    /// Send this engine event and pass the key on.
    Send(KeyKind),
    /// Send `Accept` and swallow the key; its key-up is swallowed as well.
    Accept,
    /// "Press a key to assign" captured this hotkey; pass the key on.
    Capture(HotkeySpec),
    /// Swallow the key-up of a swallowed accept key.
    SwallowUp,
}

/// Whether the key named `name` pressed with `m` is the hotkey `spec`.
pub open spec fn name_matches(spec: HotkeyView, name: Option<Seq<char>>, m: Mods) -> bool {
    match name {
        Some(n) => hotkey_matches(spec, n, m),
        None => false,
    }
}

/// The hook's state between events: the armed hotkey press and the accept
/// key whose key-up is still to be swallowed.
pub struct HookState {
    edge: HotkeyEdgeState,
    swallow_up_vk: u32,
}

impl HookState {
    /// The virtual-key code whose key-up emits the hotkey; 0 when none.
    pub closed spec fn pending(&self) -> u32 {
        self.edge.pending()
    }

    /// The virtual-key code whose key-up is swallowed; 0 when none.
    pub closed spec fn swallow_up(&self) -> u32 {
        self.swallow_up_vk
    }

    /// Nothing armed, nothing to swallow.
    pub fn new() -> (s: Self)
        ensures
            s.pending() == 0,
            s.swallow_up() == 0,
    {
        HookState { edge: HotkeyEdgeState::new(), swallow_up_vk: 0 }
    }

    /// Decide about one keyboard event: a key-down (`down`) or key-up of
    /// scan code `scan` and virtual-key code `vk`, whose key name is `name`,
    /// with modifiers `m`. `accept` is the accept key while a suggestion is
    /// visible. Synthetic events pass untouched. A key-down is, in this
    /// order: the accept key (sent and swallowed), a captured hotkey while
    /// capturing, part of a hotkey press (consumed), or classified. A key-up
    /// is swallowed if its key-down was, and otherwise may complete the
    /// hotkey press.
    pub fn decide(
        &mut self,
        down: bool,
        scan: u32,
        vk: u32,
        injected: bool,
        name: &Option<String>,
        m: Mods,
        accept: Option<&HotkeySpec>,
        capturing: bool,
        hotkey: &HotkeySpec,
    ) -> (r: HookVerdict)
        ensures
            injected ==> r is Pass && final(self).pending() == old(self).pending() && final(self).swallow_up()
                == old(self).swallow_up(),
            !injected && down ==> if accept is Some && name_matches(accept->0@, name_view(*name), m) {
                &&& r is Accept
                &&& final(self).swallow_up() == vk
                &&& final(self).pending() == old(self).pending()
            } else if capturing {
                &&& final(self).pending() == old(self).pending()
                &&& final(self).swallow_up() == old(self).swallow_up()
                &&& match r {
                    HookVerdict::Capture(h) => name_view(*name) is Some && captured(name_view(*name)->0, m) == Some(
                        h@,
                    ),
                    HookVerdict::Pass => name_view(*name) is None || captured(name_view(*name)->0, m) is None,
                    _ => false,
                }
            } else {
                let (consumed, p) = key_down_step(
                    old(self).pending(),
                    vk,
                    name_matches(hotkey@, name_view(*name), m),
                );
                &&& final(self).pending() == p
                &&& final(self).swallow_up() == old(self).swallow_up()
                &&& if consumed {
                    r is Pass
                } else {
                    match win_kind(scan, vk, m) {
                        Some(k) => r matches HookVerdict::Send(k2) && k2 == k,
                        None => r is Pass,
                    }
                }
            },
            !injected && !down ==> if vk != 0 && old(self).swallow_up() == vk {
                &&& r is SwallowUp
                &&& final(self).swallow_up() == 0
                &&& final(self).pending() == old(self).pending()
            } else {
                let (emit, p) = key_up_step(old(self).pending(), vk);
                &&& final(self).pending() == p
                &&& final(self).swallow_up() == old(self).swallow_up()
                &&& if emit {
                    r matches HookVerdict::Send(k) && k == KeyKind::Hotkey
                } else {
                    r is Pass
                }
            },
    {
        if injected {
            return HookVerdict::Pass;
        }
        if down {
            let hit = match accept {
                Some(spec) => matches_spec(spec, name, m),
                None => false,
            };
            if hit {
                self.swallow_up_vk = vk;
                return HookVerdict::Accept;
            }
            if capturing {
                return match capture_spec(name, m) {
                    Some(h) => HookVerdict::Capture(h),
                    None => HookVerdict::Pass,
                };
            }
            let matches = matches_spec(hotkey, name, m);
            if self.edge.consume_key_down(vk, matches) {
                return HookVerdict::Pass;
            }
            match classify(scan, vk, m) {
                Some(k) => HookVerdict::Send(k),
                None => HookVerdict::Pass,
            }
        } else {
            if vk != 0 && self.swallow_up_vk == vk {
                self.swallow_up_vk = 0;
                return HookVerdict::SwallowUp;
            }
            if self.edge.emit_on_key_up(vk) {
                HookVerdict::Send(KeyKind::Hotkey)
            } else {
                HookVerdict::Pass
            }
        }
    }
}

} // verus!
