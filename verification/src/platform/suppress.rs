//! Bookkeeping that lets the X11 capture thread drop our own injected key
//! presses.
//!
//! Before sending each key-press the injector registers its keycode here; the
//! capture side then drops exactly that many presses of that keycode. Two
//! extra mechanisms keep a lost or racing echo from corrupting the next
//! correction: an *injection window* (any unaccounted press seen while an
//! injection is in flight is dropped) and *stale-counter expiry* (counters
//! left over well after the last injection ended are cleared).

use vstd::prelude::*;

use std::time::{Duration, Instant};

verus! {

/// Echoes still pending this many milliseconds after the last injection ended
/// are stale.
pub const STALE_AFTER_MS: u64 = 500;

/// Number of keycode slots.
pub const SLOTS: usize = 256;

#[verifier::external_type_specification]
#[verifier::external_body]
pub struct ExInstant(Instant);

/// `Instant::now`: the current point of the monotonic clock. Nothing is
/// claimed of it.
#[verifier::external_body]
fn clock_start() -> Instant {
    Instant::now()
}

/// `Instant::elapsed`: the time since `base`. It depends on the clock, so
/// nothing is claimed of it.
#[verifier::external_body]
fn elapsed_since(base: &Instant) -> Duration {
    base.elapsed()
}

/// `Duration::as_millis`: whole milliseconds. Nothing is claimed of the
/// value.
#[verifier::external_body]
fn whole_millis(d: Duration) -> u128 {
    d.as_millis()
}

/// What the capture thread should do with an observed key-press.
#[derive(Clone, Copy, Debug, PartialEq, Eq, Structural)]
pub enum Filter {
    /// The echo of one of our injected presses: drop it.
    DropEcho,
    /// A press we did not inject, seen while an injection is in flight: drop
    /// it, it would interleave with the injected sequence.
    DropInjecting,
    /// A genuine user key-press.
    Real,
}

/// Marks one injection in flight; hand it back to
/// [`Suppress::end_injection`] when the injected batch is done.
pub struct InjectionGuard {
    depth: usize,
}

/// The mathematical state of a [`Suppress`].
pub struct SuppressView {
    /// Per-keycode count of injected presses still expected to echo back.
    pub pending: Seq<u16>,
    /// Nesting depth of injections in flight.
    pub injecting: nat,
    /// Clock reading (ms, at least 1) when the last injection ended; 0 = never.
    pub ended_at: u64,
    /// Age (ms) after which leftover counters are stale.
    pub stale_after: u64,
}

/// `a.saturating_sub(b)`.
pub open spec fn sat_sub(a: u64, b: u64) -> int {
    if a >= b {
        a - b
    } else {
        0
    }
}

/// Whether, at clock reading `now`, leftover counters are stale: no injection
/// is in flight, one has ended, and that was more than the deadline ago.
pub open spec fn is_stale(v: SuppressView, now: u64) -> bool {
    &&& v.injecting == 0
    &&& v.ended_at != 0
    &&& sat_sub(now, v.ended_at) > v.stale_after
}

/// The counters after expiry at clock reading `now`.
pub open spec fn counters_at(v: SuppressView, now: u64) -> Seq<u16> {
    if is_stale(v, now) {
        Seq::new(v.pending.len(), |i: int| 0u16)
    } else {
        v.pending
    }
}

/// The verdict on a press of `keycode` observed at clock reading `now`.
pub open spec fn filter_verdict(v: SuppressView, keycode: u8, now: u64) -> Filter {
    if counters_at(v, now)[keycode as int] > 0 {
        Filter::DropEcho
    } else if v.injecting > 0 {
        Filter::DropInjecting
    } else {
        Filter::Real
    }
}

/// The counters after a press of `keycode` observed at clock reading `now`:
/// stale counters are cleared, then one pending echo of `keycode` is consumed.
pub open spec fn counters_after(v: SuppressView, keycode: u8, now: u64) -> Seq<u16> {
    let c = counters_at(v, now);
    if c[keycode as int] > 0 {
        c.update(keycode as int, (c[keycode as int] - 1) as u16)
    } else {
        c
    }
}

/// Per-keycode echo counters plus the injection-window and staleness state.
pub struct Suppress {
    pending: Vec<u16>,
    injecting: usize,
    ended_at_ms: u64,
    base: Instant,
    stale_after_ms: u64,
}

impl Suppress {
    /// The mathematical state.
    pub closed spec fn view(&self) -> SuppressView {
        SuppressView {
            pending: self.pending@,
            injecting: self.injecting as nat,
            ended_at: self.ended_at_ms,
            stale_after: self.stale_after_ms,
        }
    }

    /// One counter per possible keycode.
    pub open spec fn wf(&self) -> bool {
        self.view().pending.len() == SLOTS
    }

    /// Fresh state with the default staleness deadline.
    pub fn new() -> (s: Self)
        ensures
            s.wf(),
            s.view().pending == Seq::new(SLOTS as nat, |i: int| 0u16),
            s.view().injecting == 0,
            s.view().ended_at == 0,
            s.view().stale_after == STALE_AFTER_MS,
    {
        Self::with_stale_after_ms(STALE_AFTER_MS)
    }

    /// Fresh state whose leftover counters expire `stale_after_ms`
    /// milliseconds after the last injection ended.
    pub fn with_stale_after_ms(stale_after_ms: u64) -> (s: Self)
        ensures
            s.wf(),
            s.view().pending == Seq::new(SLOTS as nat, |i: int| 0u16),
            s.view().injecting == 0,
            s.view().ended_at == 0,
            s.view().stale_after == stale_after_ms,
    {
        let mut pending: Vec<u16> = Vec::new();
        let mut i: usize = 0;
        while i < SLOTS
            invariant
                i <= SLOTS,
                pending@ == Seq::new(i as nat, |j: int| 0u16),
            decreases SLOTS - i,
        {
            pending.push(0);
            i = i + 1;
            assert(pending@ =~= Seq::new(i as nat, |j: int| 0u16));
        }
        Suppress { pending, injecting: 0, ended_at_ms: 0, base: clock_start(), stale_after_ms }
    }

    /// Monotonic milliseconds since construction, floored to 1 so that a
    /// stored 0 keeps meaning "no injection has ended yet".
    fn now_ms(&self) -> (r: u64)
        ensures
            r >= 1,
    {
        let ms = whole_millis(elapsed_since(&self.base));
        #[verifier::truncate]
        let t = ms as u64;
        if t < 1 {
            1
        } else {
            t
        }
    }

    /// How many injections are in flight.
    pub fn depth(&self) -> (r: usize)
        ensures
            r == self.view().injecting,
    {
        self.injecting
    }

    /// The clock reading (ms since construction, at least 1) that the
    /// `_at` operations take.
    pub fn clock_ms(&self) -> (r: u64)
        ensures
            r >= 1,
    {
        self.now_ms()
    }

    /// Open an injection window; hand the guard back to
    /// [`Suppress::end_injection`] after the whole injected batch.
    pub fn injection(&mut self) -> (g: InjectionGuard)
        requires
            old(self).view().injecting < usize::MAX,
        ensures
            final(self).view() == (SuppressView {
                injecting: old(self).view().injecting + 1,
                ..old(self).view()
            }),
    {
        self.injecting = self.injecting + 1;
        InjectionGuard { depth: self.injecting }
    }

    /// Close an injection window at clock reading `now_ms`: the depth drops
    /// by one, and when it reaches zero the end time is recorded.
    pub fn end_injection_at(&mut self, guard: InjectionGuard, now_ms: u64)
        requires
            old(self).view().injecting > 0,
            now_ms >= 1,
        ensures
            final(self).view() == (SuppressView {
                injecting: (old(self).view().injecting - 1) as nat,
                ended_at: if old(self).view().injecting == 1 {
                    now_ms
                } else {
                    old(self).view().ended_at
                },
                ..old(self).view()
            }),
    {
        let _ = guard.depth;
        self.injecting = self.injecting - 1;
        if self.injecting == 0 {
            self.ended_at_ms = now_ms;
        }
    }

    /// Close an injection window now: the depth drops by one, and when it
    /// reaches zero the current clock reading (at least 1) is recorded.
    pub fn end_injection(&mut self, guard: InjectionGuard)
        requires
            old(self).view().injecting > 0,
        ensures
            final(self).view().pending == old(self).view().pending,
            final(self).view().injecting == old(self).view().injecting - 1,
            final(self).view().stale_after == old(self).view().stale_after,
            old(self).view().injecting == 1 ==> final(self).view().ended_at >= 1,
            old(self).view().injecting != 1 ==> final(self).view().ended_at == old(self).view().ended_at,
    {
        let now = self.now_ms();
        self.end_injection_at(guard, now);
    }

    /// Register that we are about to inject one press of `keycode` (the
    /// counter wraps like the atomic it models).
    pub fn expect(&mut self, keycode: u8)
        requires
            old(self).wf(),
        ensures
            final(self).wf(),
            final(self).view() == (SuppressView {
                pending: old(self).view().pending.update(
                    keycode as int,
                    (if old(self).view().pending[keycode as int] == u16::MAX {
                        0
                    } else {
                        old(self).view().pending[keycode as int] + 1
                    }) as u16,
                ),
                ..old(self).view()
            }),
    {
        let k = keycode as usize;
        let c = self.pending[k];
        let next: u16 = if c == u16::MAX {
            0
        } else {
            c + 1
        };
        self.pending.set(k, next);
    }

    /// Decide about a key-press of `keycode` observed at clock reading
    /// `now_ms`. Stale counters are expired first, so a lost echo cannot eat
    /// the user's first real press.
    pub fn filter_at(&mut self, keycode: u8, now_ms: u64) -> (r: Filter)
        requires
            old(self).wf(),
        ensures
            final(self).wf(),
            r == filter_verdict(old(self).view(), keycode, now_ms),
            final(self).view() == (SuppressView {
                pending: counters_after(old(self).view(), keycode, now_ms),
                ..old(self).view()
            }),
    {
        self.clear_stale(now_ms);
        let k = keycode as usize;
        let c = self.pending[k];
        if c > 0 {
            self.pending.set(k, c - 1);
            return Filter::DropEcho;
        }
        if self.injecting > 0 {
            return Filter::DropInjecting;
        }
        Filter::Real
    }

    /// Decide about a key-press of `keycode` observed now.
    pub fn filter(&mut self, keycode: u8) -> (r: Filter)
        requires
            old(self).wf(),
        ensures
            final(self).wf(),
            exists|now: u64|
                now >= 1 && r == #[trigger] filter_verdict(old(self).view(), keycode, now) && final(self).view()
                    == (SuppressView {
                    pending: counters_after(old(self).view(), keycode, now),
                    ..old(self).view()
                }),
    {
        let now = self.now_ms();
        self.filter_at(keycode, now)
    }

    /// Zero all counters if they are leftovers of an injection that ended
    /// more than the deadline before `now_ms`.
    fn clear_stale(&mut self, now_ms: u64)
        requires
            old(self).wf(),
        ensures
            final(self).wf(),
            final(self).view() == (SuppressView {
                pending: counters_at(old(self).view(), now_ms),
                ..old(self).view()
            }),
    {
        if self.injecting > 0 {
            return;
        }
        let ended = self.ended_at_ms;
        let age: u64 = if now_ms >= ended {
            now_ms - ended
        } else {
            0
        };
        if ended == 0 || age <= self.stale_after_ms {
            return;
        }
        let mut i: usize = 0;
        while i < SLOTS
            invariant
                i <= SLOTS,
                self.pending@.len() == SLOTS,
                forall|j: int| 0 <= j < i ==> self.pending@[j] == 0u16,
                self.injecting == old(self).injecting,
                self.ended_at_ms == old(self).ended_at_ms,
                self.stale_after_ms == old(self).stale_after_ms,
            decreases SLOTS - i,
        {
            self.pending.set(i, 0);
            i = i + 1;
        }
        assert(self.pending@ =~= Seq::new(SLOTS as nat, |j: int| 0u16));
    }
}

impl Default for Suppress {
    fn default() -> (s: Self)
        ensures
            s.wf(),
            s.view().pending == Seq::new(SLOTS as nat, |i: int| 0u16),
            s.view().injecting == 0,
            s.view().ended_at == 0,
            s.view().stale_after == STALE_AFTER_MS,
    {
        Self::new()
    }
}

/// An expected echo is dropped exactly once: registering a press and then
/// observing it, outside any expiry, gives `DropEcho` and leaves the counters
/// as they were.
pub proof fn law_expect_then_filter_cancels(v: SuppressView, keycode: u8, now: u64)
    requires
        v.pending.len() == SLOTS,
        v.pending[keycode as int] < u16::MAX,
        !is_stale(v, now),
    ensures
        ({
            let w = SuppressView {
                pending: v.pending.update(keycode as int, (v.pending[keycode as int] + 1) as u16),
                ..v
            };
            &&& filter_verdict(w, keycode, now) == Filter::DropEcho
            &&& counters_after(w, keycode, now) == v.pending
        }),
{
    let w = SuppressView {
        pending: v.pending.update(keycode as int, (v.pending[keycode as int] + 1) as u16),
        ..v
    };
    assert(!is_stale(w, now));
    assert(counters_after(w, keycode, now) =~= v.pending);
}

/// While any injection is in flight, a press with no pending echo is dropped
/// as interleaving, and counters are never expired.
pub proof fn law_window_drops_unexpected_presses(v: SuppressView, keycode: u8, now: u64)
    requires
        v.pending.len() == SLOTS,
        v.injecting > 0,
        v.pending[keycode as int] == 0,
    ensures
        filter_verdict(v, keycode, now) == Filter::DropInjecting,
        counters_after(v, keycode, now) == v.pending,
{
}

/// Counters are never expired before some injection has ended.
pub proof fn law_no_expiry_before_any_injection_ends(v: SuppressView, keycode: u8, now: u64)
    requires
        v.pending.len() == SLOTS,
        v.ended_at == 0,
    ensures
        counters_at(v, now) == v.pending,
        filter_verdict(v, keycode, now) == (if v.pending[keycode as int] > 0 {
            Filter::DropEcho
        } else if v.injecting > 0 {
            Filter::DropInjecting
        } else {
            Filter::Real
        }),
{
}

/// Once the deadline after the last injection has passed, every press is
/// real and all leftover counters are gone.
pub proof fn law_stale_counters_never_eat_presses(v: SuppressView, keycode: u8, now: u64)
    requires
        v.pending.len() == SLOTS,
        is_stale(v, now),
    ensures
        filter_verdict(v, keycode, now) == Filter::Real,
        counters_after(v, keycode, now) == Seq::new(SLOTS as nat, |i: int| 0u16),
{
}

} // verus!
