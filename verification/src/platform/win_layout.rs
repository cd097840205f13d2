//! Decision logic of the Windows layout switcher: how a layout-change request
//! is delivered to the focused application, and when polling for the new
//! layout has succeeded or failed.

use vstd::prelude::*;

use crate::layout::Lang;
use crate::text::{chars_eq, chars_of, string_of, trim, trimmed};
use crate::unicode::{str_lowercase, lowercase_str};

verus! {

/// Language identifier of US English.
pub const LANGID_EN: u16 = 0x0409;

/// Language identifier of Russian.
pub const LANGID_RU: u16 = 0x0419;

/// How long to wait for a requested layout to become active, in ms.
pub const SWITCH_TIMEOUT_MS: u64 = 250;

/// Pause between two activation polls, in ms.
pub const POLL_INTERVAL_MS: u64 = 1;

/// The language identifier of a layout.
pub open spec fn langid_of(lang: Lang) -> u16 {
    match lang {
        Lang::En => LANGID_EN,
        Lang::Ru => LANGID_RU,
    }
}

/// The language identifier the switcher requests for `lang`.
pub fn langid_for(lang: Lang) -> (r: u16)
    ensures
        r == langid_of(lang),
{
    match lang {
        Lang::En => LANGID_EN,
        Lang::Ru => LANGID_RU,
    }
}

/// The layout of a language identifier, if it is EN or RU.
pub fn lang_of_langid(id: u16) -> (r: Option<Lang>)
    ensures
        r == (if id == LANGID_EN {
            Some(Lang::En)
        } else if id == LANGID_RU {
            Some(Lang::Ru)
        } else {
            None
        }),
{
    if id == LANGID_EN {
        Some(Lang::En)
    } else if id == LANGID_RU {
        Some(Lang::Ru)
    } else {
        None
    }
}

/// Why polling for an activated layout gave up.
#[derive(Clone, Copy, Debug, PartialEq, Eq, Structural)]
pub enum ActivationPollFailure {
    /// The foreground window changed while waiting.
    ForegroundChanged,
    /// The deadline passed without the layout becoming active.
    Exhausted,
    /// `u64::MAX` polls passed without the layout becoming active and
    /// without a clock reading past the deadline (a clock that never
    /// advances).
    PollLimit,
}

/// How the layout-change request reaches the focused window.
#[derive(Clone, Copy, Debug, PartialEq, Eq, Structural)]
pub enum DeliveryMode {
    /// Queued with `PostMessage`.
    Posted,
    /// Sent synchronously, with a timeout.
    Synchronous,
}

/// The process name that needs synchronous delivery.
pub open spec fn notepad_plus_plus() -> Seq<char> {
    seq!['n', 'o', 't', 'e', 'p', 'a', 'd', '+', '+', '.', 'e', 'x', 'e']
}

/// Only the exact process `notepad++.exe` gets synchronous delivery.
pub fn delivery_mode_for_app(app: Option<&str>) -> (r: DeliveryMode)
    ensures
        r == (if app is Some && app->0@ == notepad_plus_plus() {
            DeliveryMode::Synchronous
        } else {
            DeliveryMode::Posted
        }),
{
    match app {
        Some(a) => {
            let v = chars_of(a);
            let n = ['n', 'o', 't', 'e', 'p', 'a', 'd', '+', '+', '.', 'e', 'x', 'e'];
            assert(n@ =~= notepad_plus_plus());
            if chars_eq(&v, &n) {
                DeliveryMode::Synchronous
            } else {
                DeliveryMode::Posted
            }
        },
        None => DeliveryMode::Posted,
    }
}

/// What one activation poll decides.
#[derive(Clone, Copy, Debug, PartialEq, Eq, Structural)]
pub enum PollStep {
    /// The target layout is active.
    Active,
    /// Give up.
    Fail(ActivationPollFailure),
    /// Sleep one interval and poll again.
    Wait,
}

/// The decision of one poll: a changed foreground window fails at once, the
/// target layout succeeds, and otherwise the deadline decides between giving
/// up and waiting.
pub open spec fn poll_decision(foreground_stable: bool, current: u16, target: u16, timed_out: bool) -> PollStep {
    if !foreground_stable {
        PollStep::Fail(ActivationPollFailure::ForegroundChanged)
    } else if current == target {
        PollStep::Active
    } else if timed_out {
        PollStep::Fail(ActivationPollFailure::Exhausted)
    } else {
        PollStep::Wait
    }
}

/// Decide one poll from what was observed.
pub fn poll_step(foreground_stable: bool, current: u16, target: u16, timed_out: bool) -> (r: PollStep)
    ensures
        r == poll_decision(foreground_stable, current, target, timed_out),
{
    if !foreground_stable {
        PollStep::Fail(ActivationPollFailure::ForegroundChanged)
    } else if current == target {
        PollStep::Active
    } else if timed_out {
        PollStep::Fail(ActivationPollFailure::Exhausted)
    } else {
        PollStep::Wait
    }
}

/// Whether `c` separates path components on Windows.
pub open spec fn path_sep(c: char) -> bool {
    c == '\\' || c == '/'
}

/// The last path component of `s`: what follows the last separator.
pub open spec fn last_component(s: Seq<char>) -> Seq<char>
    decreases s.len(),
{
    if s.len() == 0 {
        s
    } else if path_sep(s.last()) {
        Seq::<char>::empty()
    } else {
        last_component(s.drop_last()).push(s.last())
    }
}

/// The process name the per-app rules match: the executable's file name,
/// trimmed and lowercased (e.g. `telegram.exe`), from its full image path.
pub fn process_basename(full: &str) -> (r: String)
    ensures
        r@ == lowercase_str(trim(last_component(full@))),
{
    let v = chars_of(full);
    let mut start: usize = v.len();
    assert(v@.take(start as int) =~= v@);
    assert(v@.skip(start as int) =~= Seq::<char>::empty());
    assert(last_component(v@) + Seq::<char>::empty() =~= last_component(v@));
    while start > 0 && !(v[start - 1] == '\\' || v[start - 1] == '/')
        invariant
            start <= v.len(),
            v@ == full@,
            last_component(v@) == last_component(v@.take(start as int)) + v@.skip(start as int),
        decreases start,
    {
        proof {
            let t = v@.take(start as int);
            assert(t.drop_last() =~= v@.take(start - 1));
            assert(v@.skip(start - 1) =~= seq![t.last()] + v@.skip(start as int));
            assert(last_component(t) == last_component(t.drop_last()).push(t.last()));
            assert(last_component(t.drop_last()).push(t.last()) + v@.skip(start as int) =~= last_component(
                t.drop_last(),
            ) + v@.skip(start - 1));
        }
        start = start - 1;
    }
    proof {
        if start > 0 {
            let t = v@.take(start as int);
            assert(path_sep(t.last()));
            assert(last_component(t) =~= Seq::<char>::empty());
        } else {
            assert(v@.take(0) =~= Seq::<char>::empty());
        }
        assert(last_component(v@) =~= v@.skip(start as int));
    }
    let mut tail: Vec<char> = Vec::new();
    let mut i: usize = start;
    while i < v.len()
        invariant
            start <= i <= v.len(),
            tail@ == v@.subrange(start as int, i as int),
        decreases v.len() - i,
    {
        tail.push(v[i]);
        i = i + 1;
    }
    assert(tail@ =~= v@.skip(start as int));
    let t = trimmed(tail.as_slice());
    let s = string_of(t.as_slice());
    str_lowercase(s.as_str())
}

/// One thing an activation probe reported.
pub enum ProbeEvent {
    /// An observation: whether the foreground window is still the same,
    /// and the language identifier of its layout.
    Observed { stable: bool, langid: u16 },
    /// A clock reading: milliseconds since the switch was requested.
    Clock { ms: u64 },
    /// A pause of `ms` milliseconds.
    Slept { ms: u64 },
}

/// What activation polling observes and waits with: the foreground
/// window's layout, a clock and a sleep. Each probe keeps the history of
/// what it reported ([`ActivationProbe::probe_log`]).
pub trait ActivationProbe {
    /// Everything reported so far, oldest first.
    spec fn probe_log(&self) -> Seq<ProbeEvent>;

    /// The probe can be asked (for closures: they accept every call).
    spec fn ready(&self) -> bool;

    /// Observe the foreground window: `(still the same window, langid)`.
    fn observe(&mut self) -> (r: (bool, u16))
        requires
            old(self).ready(),
        ensures
            final(self).ready(),
            final(self).probe_log() == old(self).probe_log().push(ProbeEvent::Observed { stable: r.0, langid: r.1 }),
    ;

    /// Read the milliseconds elapsed since the switch was requested.
    fn elapsed_ms(&mut self) -> (r: u64)
        requires
            old(self).ready(),
        ensures
            final(self).ready(),
            final(self).probe_log() == old(self).probe_log().push(ProbeEvent::Clock { ms: r }),
    ;

    /// Pause for `ms` milliseconds.
    fn sleep_ms(&mut self, ms: u64)
        requires
            old(self).ready(),
        ensures
            final(self).ready(),
            final(self).probe_log() == old(self).probe_log().push(ProbeEvent::Slept { ms }),
    ;
}

/// A probe made of three closures: observe, clock, sleep. It records
/// exactly what each call was given and returned.
pub struct ClosureProbe<O, E, S> {
    observe: O,
    elapsed: E,
    sleep: S,
    log: Ghost<Seq<ProbeEvent>>,
}

impl<O: FnMut() -> (bool, u16), E: FnMut() -> u64, S: FnMut(u64)> ClosureProbe<O, E, S> {
    /// A probe over `observe`, `elapsed` and `sleep`, with nothing reported yet.
    pub fn new(observe: O, elapsed: E, sleep: S) -> (r: Self)
        requires
            forall|o: O| call_requires(o, ()),
            forall|e: E| call_requires(e, ()),
            forall|z: S, ms: u64| call_requires(z, (ms,)),
        ensures
            r.ready(),
            r.probe_log() == Seq::<ProbeEvent>::empty(),
    {
        ClosureProbe { observe, elapsed, sleep, log: Ghost(Seq::empty()) }
    }
}

impl<O: FnMut() -> (bool, u16), E: FnMut() -> u64, S: FnMut(u64)> ActivationProbe for ClosureProbe<O, E, S> {
    closed spec fn probe_log(&self) -> Seq<ProbeEvent> {
        self.log@
    }

    closed spec fn ready(&self) -> bool {
        &&& forall|o: O| call_requires(o, ())
        &&& forall|e: E| call_requires(e, ())
        &&& forall|z: S, ms: u64| call_requires(z, (ms,))
    }

    fn observe(&mut self) -> (r: (bool, u16)) {
        let r = (self.observe)();
        self.log = Ghost(self.log@.push(ProbeEvent::Observed { stable: r.0, langid: r.1 }));
        r
    }

    fn elapsed_ms(&mut self) -> (r: u64) {
        let r = (self.elapsed)();
        self.log = Ghost(self.log@.push(ProbeEvent::Clock { ms: r }));
        r
    }

    fn sleep_ms(&mut self, ms: u64) {
        (self.sleep)(ms);
        self.log = Ghost(self.log@.push(ProbeEvent::Slept { ms }));
    }
}

/// One round that decided to wait: a stable observation of another layout,
/// a clock reading before the deadline, and a pause of one interval.
pub open spec fn wait_round(a: ProbeEvent, b: ProbeEvent, c: ProbeEvent, target: u16) -> bool {
    &&& a matches ProbeEvent::Observed { stable, langid } && stable && langid != target
    &&& b matches ProbeEvent::Clock { ms } && ms < SWITCH_TIMEOUT_MS
    &&& c == ProbeEvent::Slept { ms: POLL_INTERVAL_MS }
}

/// `ev` is `k` rounds that each decided to wait.
pub open spec fn waits(ev: Seq<ProbeEvent>, target: u16, k: nat) -> bool
    decreases k,
{
    if k == 0 {
        ev.len() == 0
    } else {
        ev.len() >= 3 && wait_round(ev[0], ev[1], ev[2], target) && waits(ev.skip(3), target, (k - 1) as nat)
    }
}

/// What polling for `target` reports in `ev`, with at most `rounds` rounds
/// left, and how it ends (`r`). A round observes; a changed foreground
/// ends it with `ForegroundChanged`, the target layout with success;
/// otherwise it reads the clock, gives up with `Exhausted` at the deadline,
/// and else sleeps one interval and goes on. Out of rounds, it ends with
/// `PollLimit`.
pub open spec fn poll_run(ev: Seq<ProbeEvent>, target: u16, rounds: nat, r: Result<(), ActivationPollFailure>) -> bool
    decreases ev.len(),
{
    if rounds == 0 {
        ev.len() == 0 && r == Err::<(), ActivationPollFailure>(ActivationPollFailure::PollLimit)
    } else if ev.len() == 0 {
        false
    } else {
        match ev[0] {
            ProbeEvent::Observed { stable, langid } => if !stable {
                ev.len() == 1 && r == Err::<(), ActivationPollFailure>(ActivationPollFailure::ForegroundChanged)
            } else if langid == target {
                ev.len() == 1 && r == Ok::<(), ActivationPollFailure>(())
            } else if ev.len() >= 2 {
                match ev[1] {
                    ProbeEvent::Clock { ms } => if ms >= SWITCH_TIMEOUT_MS {
                        ev.len() == 2 && r == Err::<(), ActivationPollFailure>(ActivationPollFailure::Exhausted)
                    } else if ev.len() >= 3 {
                        ev[2] == ProbeEvent::Slept { ms: POLL_INTERVAL_MS } && poll_run(
                            ev.skip(3),
                            target,
                            (rounds - 1) as nat,
                            r,
                        )
                    } else {
                        false
                    },
                    _ => false,
                }
            } else {
                false
            },
            _ => false,
        }
    }
}

proof fn lemma_waits_push(ev: Seq<ProbeEvent>, target: u16, k: nat, a: ProbeEvent, b: ProbeEvent, c: ProbeEvent)
    requires
        waits(ev, target, k),
        wait_round(a, b, c, target),
    ensures
        waits(ev + seq![a, b, c], target, k + 1),
    decreases k,
{
    let ext = ev + seq![a, b, c];
    if k == 0 {
        assert(ext =~= seq![a, b, c]);
        assert(ext[0] == a && ext[1] == b && ext[2] == c);
        assert(ext.skip(3) =~= Seq::<ProbeEvent>::empty());
        assert(waits(ext.skip(3), target, 0));
    } else {
        lemma_waits_push(ev.skip(3), target, (k - 1) as nat, a, b, c);
        assert(ext.skip(3) =~= ev.skip(3) + seq![a, b, c]);
        assert(ext[0] == ev[0] && ext[1] == ev[1] && ext[2] == ev[2]);
    }
}

proof fn lemma_waits_then(pre: Seq<ProbeEvent>, tail: Seq<ProbeEvent>, target: u16, k: nat, n: nat, r: Result<
    (),
    ActivationPollFailure,
>)
    requires
        waits(pre, target, k),
        poll_run(tail, target, n, r),
    ensures
        poll_run(pre + tail, target, n + k, r),
    decreases k,
{
    if k == 0 {
        assert(pre + tail =~= tail);
    } else {
        lemma_waits_then(pre.skip(3), tail, target, (k - 1) as nat, n, r);
        let all = pre + tail;
        assert(all.skip(3) =~= pre.skip(3) + tail);
        assert(all[0] == pre[0] && all[1] == pre[1] && all[2] == pre[2]);
    }
}

/// Poll layout activation through a probe, so that delayed message
/// processing and focus races are deterministic in tests. Each round
/// observes `(foreground still the same, current langid)` and acts on
/// [`poll_step`]: while the foreground is stable and another layout is
/// active, it reads the clock and gives up once [`SWITCH_TIMEOUT_MS`] have
/// passed, and otherwise sleeps [`POLL_INTERVAL_MS`]. What the probe
/// reports during the call is exactly [`poll_run`] over `u64::MAX` rounds.
pub fn poll_until_active<P: ActivationProbe>(target_langid: u16, probe: &mut P) -> (r: Result<
    (),
    ActivationPollFailure,
>)
    requires
        old(probe).ready(),
    ensures
        final(probe).ready(),
        old(probe).probe_log().is_prefix_of(final(probe).probe_log()),
        poll_run(
            final(probe).probe_log().skip(old(probe).probe_log().len() as int),
            target_langid,
            u64::MAX as nat,
            r,
        ),
{
    let ghost start = probe.probe_log();
    let mut rounds: u64 = 0;
    assert(probe.probe_log().skip(start.len() as int) =~= Seq::<ProbeEvent>::empty());
    while rounds < u64::MAX
        invariant
            probe.ready(),
            start == old(probe).probe_log(),
            start.is_prefix_of(probe.probe_log()),
            waits(probe.probe_log().skip(start.len() as int), target_langid, rounds as nat),
        decreases u64::MAX - rounds,
    {
        let ghost before = probe.probe_log();
        let (foreground_stable, current) = probe.observe();
        assert(probe.probe_log().subrange(0, start.len() as int) =~= start);
        let ghost a = ProbeEvent::Observed { stable: foreground_stable, langid: current };
        let mut timed_out = false;
        let mut t: u64 = 0;
        if foreground_stable && current != target_langid {
            t = probe.elapsed_ms();
            timed_out = t >= SWITCH_TIMEOUT_MS;
        }
        let ghost b = ProbeEvent::Clock { ms: t };
        assert(probe.probe_log().subrange(0, start.len() as int) =~= start);
        let step = poll_step(foreground_stable, current, target_langid, timed_out);
        match step {
            PollStep::Active => {
                proof {
                    let tail = probe.probe_log().skip(before.len() as int);
                    assert(tail =~= seq![a]);
                    assert(probe.probe_log().skip(start.len() as int) =~= before.skip(start.len() as int) + tail);
                    lemma_waits_then(before.skip(start.len() as int), tail, target_langid, rounds as nat, (u64::MAX
                        - rounds) as nat, Ok(()));
                }
                return Ok(());
            },
            PollStep::Fail(f) => {
                proof {
                    let tail = probe.probe_log().skip(before.len() as int);
                    if !foreground_stable {
                        assert(tail =~= seq![a]);
                    } else {
                        assert(tail =~= seq![a, b]);
                    }
                    assert(probe.probe_log().skip(start.len() as int) =~= before.skip(start.len() as int) + tail);
                    lemma_waits_then(before.skip(start.len() as int), tail, target_langid, rounds as nat, (u64::MAX
                        - rounds) as nat, Err(f));
                }
                return Err(f);
            },
            PollStep::Wait => {},
        }
        probe.sleep_ms(POLL_INTERVAL_MS);
        assert(probe.probe_log().subrange(0, start.len() as int) =~= start);
        proof {
            let c = ProbeEvent::Slept { ms: POLL_INTERVAL_MS };
            assert(probe.probe_log() =~= before.push(a).push(b).push(c));
            lemma_waits_push(before.skip(start.len() as int), target_langid, rounds as nat, a, b, c);
            assert(probe.probe_log().skip(start.len() as int) =~= before.skip(start.len() as int) + seq![a, b, c]);
        }
        rounds = rounds + 1;
    }
    proof {
        let tail = probe.probe_log().skip(probe.probe_log().len() as int);
        assert(tail =~= Seq::<ProbeEvent>::empty());
        assert(probe.probe_log().skip(start.len() as int) + tail =~= probe.probe_log().skip(start.len() as int));
        lemma_waits_then(probe.probe_log().skip(start.len() as int), tail, target_langid, rounds as nat, 0, Err(
            ActivationPollFailure::PollLimit,
        ));
    }
    Err(ActivationPollFailure::PollLimit)
}

/// A changed foreground window always fails the poll, whatever the layout;
/// and while the window is stable the target layout always succeeds, even
/// past the deadline.
pub proof fn law_poll_priorities(current: u16, target: u16, timed_out: bool)
    ensures
        poll_decision(false, current, target, timed_out) == PollStep::Fail(
            ActivationPollFailure::ForegroundChanged,
        ),
        poll_decision(true, target, target, timed_out) == PollStep::Active,
{
}

} // verus!
