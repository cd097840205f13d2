//! Applying corrections: erase the text on screen, switch the system layout,
//! and retype the text through the target layout. The corrector owns the
//! platform's injector and layout switcher; every decision it takes between
//! their calls is a verified function of what they reported.

use vstd::prelude::*;

use crate::convert::{render, render_keys, Stroke};
use crate::layout::Lang;
use crate::platform::{replacement, InjectCall, KeyInjector, LayoutCall, LayoutSwitcher};
use crate::text::chars_of;

verus! {

/// Why a conversion was not carried out.
#[derive(Clone, Debug, PartialEq, Eq)]
pub enum CorrectError {
    /// The platform failed to read or switch the layout, or to inject.
    Platform(String),
    /// Before correcting, the active layout was neither the source nor the
    /// target (the user switched layout, or the read is not EN/RU).
    LayoutChanged { from: Lang, to: Lang, found: Option<Lang> },
    /// After switching, the target layout did not become active.
    TargetNotActive { to: Lang, found: Option<Lang> },
}

/// What the layout read before a conversion means.
#[derive(Clone, Copy, Debug, PartialEq, Eq, Structural)]
pub enum SourceCheck {
    /// The source layout is active: switch to the target, then verify it.
    Switch,
    /// The target layout is already active: skip the switch.
    AlreadyTarget,
    /// Neither is active: do not touch the text.
    Mismatch,
}

/// The decision on the layout read before a conversion from `from` to `to`.
pub open spec fn source_check(current: Option<Lang>, from: Lang, to: Lang) -> SourceCheck {
    if current == Some(from) {
        SourceCheck::Switch
    } else if current == Some(to) {
        SourceCheck::AlreadyTarget
    } else {
        SourceCheck::Mismatch
    }
}

/// Decide what the layout read before a conversion means.
pub fn check_source(current: Option<Lang>, from: Lang, to: Lang) -> (r: SourceCheck)
    ensures
        r == source_check(current, from, to),
{
    match current {
        Some(active) => {
            if active == from {
                SourceCheck::Switch
            } else if active == to {
                SourceCheck::AlreadyTarget
            } else {
                SourceCheck::Mismatch
            }
        },
        None => SourceCheck::Mismatch,
    }
}

/// The text to erase and the text to type for one conversion.
pub struct ConversionPlan {
    /// The keys rendered in the source layout (what is on screen).
    pub source_text: String,
    /// The keys rendered in the target layout.
    pub replacement_text: String,
    /// How many characters to erase: the source rendering plus the trailing
    /// separator already on screen.
    pub erase: usize,
}

/// Plan the conversion of `keys` from `from` to `to` with
/// `existing_trailing` on screen after them. The erase count comes from the
/// rendered text, not the key count, so it is right even where the two
/// layouts render different numbers of characters.
pub fn plan_conversion(keys: &[Stroke], from: Lang, to: Lang, existing_trailing: &str) -> (r: ConversionPlan)
    requires
        render(keys@, from).len() + existing_trailing@.len() <= usize::MAX,
    ensures
        r.source_text@ == render(keys@, from),
        r.replacement_text@ == render(keys@, to),
        r.erase == render(keys@, from).len() + existing_trailing@.len(),
{
    let source_text = render_keys(keys, from);
    let replacement_text = render_keys(keys, to);
    let shown = chars_of(source_text.as_str()).len();
    let trailing = chars_of(existing_trailing).len();
    ConversionPlan { source_text, replacement_text, erase: shown + trailing }
}

/// A platform report as the corrector passes it on.
pub open spec fn platform_result(r: Result<(), String>) -> Result<(), CorrectError> {
    match r {
        Ok(u) => Ok(u),
        Err(e) => Err(CorrectError::Platform(e)),
    }
}

/// The layout a read reports: the read layout, or none when the read failed.
pub open spec fn read_layout(read: Result<Option<Lang>, String>) -> Option<Lang> {
    match read {
        Ok(c) => c,
        Err(_) => None,
    }
}

/// The layout a read reports (see [`read_layout`]).
pub fn layout_from_read(read: Result<Option<Lang>, String>) -> (r: Option<Lang>)
    ensures
        r == read_layout(read),
{
    match read {
        Ok(c) => c,
        Err(_) => None,
    }
}

/// The injector requests `calls` are one replacement of `erase` characters
/// by `text` and `trailing`, and `r` passes on what it reported.
pub open spec fn replaced(
    calls: Seq<InjectCall>,
    erase: int,
    text: Seq<char>,
    trailing: Seq<char>,
    r: Result<(), CorrectError>,
) -> bool {
    0 <= erase <= usize::MAX && exists|done: Result<(), String>|
        replacement(calls, erase as usize, text, trailing, done) && r == platform_result(done)
}

/// After the switch to `to` succeeded: the second layout read (`reads`
/// holds it), then either the replacement (`injected`) or `TargetNotActive`
/// with nothing injected.
pub open spec fn conversion_after_switch(
    reads: Seq<LayoutCall>,
    injected: Seq<InjectCall>,
    to: Lang,
    erase: int,
    text: Seq<char>,
    trailing: Seq<char>,
    r: Result<(), CorrectError>,
) -> bool {
    reads.len() == 1 && match reads[0] {
        LayoutCall::Read { result } => match result {
            Err(e) => injected.len() == 0 && r == Err::<(), CorrectError>(CorrectError::Platform(e)),
            Ok(now) => if now == Some(to) {
                replaced(injected, erase, text, trailing, r)
            } else {
                injected.len() == 0 && r == Err::<(), CorrectError>(CorrectError::TargetNotActive { to, found: now })
            },
        },
        _ => false,
    }
}

/// The layout requests (`layout`) and injector requests (`injected`) one
/// conversion from `from` to `to` makes, and its result for every report
/// they give: read the layout; stop on a failed read or on
/// [`SourceCheck::Mismatch`]; on [`SourceCheck::Switch`] switch to `to` and
/// read again, stopping on a failure or when `to` is not active; then, and
/// only then, replace `erase` characters with `text` and `trailing`.
pub open spec fn conversion_run(
    layout: Seq<LayoutCall>,
    injected: Seq<InjectCall>,
    from: Lang,
    to: Lang,
    erase: int,
    text: Seq<char>,
    trailing: Seq<char>,
    r: Result<(), CorrectError>,
) -> bool {
    layout.len() >= 1 && match layout[0] {
        LayoutCall::Read { result } => match result {
            Err(e) => layout.len() == 1 && injected.len() == 0 && r == Err::<(), CorrectError>(
                CorrectError::Platform(e),
            ),
            Ok(current) => match source_check(current, from, to) {
                SourceCheck::Mismatch => layout.len() == 1 && injected.len() == 0 && r == Err::<(), CorrectError>(
                    CorrectError::LayoutChanged { from, to, found: current },
                ),
                SourceCheck::AlreadyTarget => layout.len() == 1 && replaced(injected, erase, text, trailing, r),
                SourceCheck::Switch => layout.len() >= 2 && match layout[1] {
                    LayoutCall::Switch { lang, result } => lang == to && match result {
                        Err(e) => layout.len() == 2 && injected.len() == 0 && r == Err::<(), CorrectError>(
                            CorrectError::Platform(e),
                        ),
                        Ok(()) => conversion_after_switch(layout.skip(2), injected, to, erase, text, trailing, r),
                    },
                    _ => false,
                },
            },
        },
        _ => false,
    }
}

/// The requests inserting a completion makes and its result: read the
/// layout; unless the read reported `lang`, switch to `lang` and stop,
/// injecting nothing, if that fails; then type `text` once.
pub open spec fn completion_run(
    layout: Seq<LayoutCall>,
    injected: Seq<InjectCall>,
    text: Seq<char>,
    lang: Lang,
    r: Result<(), CorrectError>,
) -> bool {
    layout.len() >= 1 && match layout[0] {
        LayoutCall::Read { result } => {
            let typed_once = injected.len() == 1 && match injected[0] {
                InjectCall::TypeText { text: t, result: typed } => t == text && r == platform_result(typed),
                _ => false,
            };
            if result == Ok::<Option<Lang>, String>(Some(lang)) {
                layout.len() == 1 && typed_once
            } else {
                layout.len() == 2 && match layout[1] {
                    LayoutCall::Switch { lang: l, result: sw } => l == lang && match sw {
                        Err(e) => injected.len() == 0 && r == Err::<(), CorrectError>(CorrectError::Platform(e)),
                        Ok(()) => typed_once,
                    },
                    _ => false,
                }
            }
        },
        _ => false,
    }
}

/// The injector requests replaying Tab makes and its result: one Tab
/// request whose report is passed on, or, when the injector reported a
/// failure, possibly none.
pub open spec fn tab_run(injected: Seq<InjectCall>, r: Result<(), CorrectError>) -> bool {
    exists|sent: Result<(), String>|
        r == platform_result(sent) && (injected == seq![InjectCall::Tab { result: sent }] || (sent is Err
            && injected.len() == 0))
}

/// Owns the platform's injector and layout switcher.
pub struct Corrector<I: KeyInjector, L: LayoutSwitcher> {
    injector: I,
    layout: L,
}

impl<I: KeyInjector, L: LayoutSwitcher> Corrector<I, L> {
    /// The injector.
    pub closed spec fn injector(&self) -> I {
        self.injector
    }

    /// The layout switcher.
    pub closed spec fn switcher(&self) -> L {
        self.layout
    }

    /// The injector requests carried out since `before`.
    pub open spec fn injected_since(&self, before: &Self) -> Seq<InjectCall> {
        self.injector().injected().skip(before.injector().injected().len() as int)
    }

    /// The layout requests carried out since `before`.
    pub open spec fn layout_since(&self, before: &Self) -> Seq<LayoutCall> {
        self.switcher().layout_calls().skip(before.switcher().layout_calls().len() as int)
    }

    /// The histories of `self` extend those of `before`.
    pub open spec fn extends(&self, before: &Self) -> bool {
        &&& before.injector().injected().is_prefix_of(self.injector().injected())
        &&& before.switcher().layout_calls().is_prefix_of(self.switcher().layout_calls())
    }

    /// A corrector over a platform's injector and layout switcher.
    pub fn new(injector: I, layout: L) -> (r: Self)
        ensures
            r.injector() == injector,
            r.switcher() == layout,
    {
        Corrector { injector, layout }
    }

    /// Re-render `keys` from the layout `from` into `to`: read the layout and
    /// act on [`check_source`]; when switching, verify that `to` became
    /// active; then, in one batch, erase the `from` rendering plus
    /// `existing_trailing` and type the `to` rendering plus
    /// `replacement_trailing`. A failed step stops the conversion before
    /// any text is touched, except a failed injection itself.
    pub fn convert(
        &mut self,
        keys: &[Stroke],
        from: Lang,
        to: Lang,
        existing_trailing: &str,
        replacement_trailing: &str,
    ) -> (r: Result<(), CorrectError>)
        requires
            render(keys@, from).len() + existing_trailing@.len() <= usize::MAX,
        ensures
            final(self).extends(old(self)),
            conversion_run(
                final(self).layout_since(old(self)),
                final(self).injected_since(old(self)),
                from,
                to,
                (render(keys@, from).len() + existing_trailing@.len()) as int,
                render(keys@, to),
                replacement_trailing@,
                r,
            ),
    {
        let ghost l0 = self.layout.layout_calls();
        let ghost i0 = self.injector.injected();
        let plan = plan_conversion(keys, from, to, existing_trailing);
        let read = self.layout.current();
        let ghost c0 = LayoutCall::Read { result: read };
        let current = match read {
            Ok(c) => c,
            Err(e) => {
                assert(self.layout.layout_calls().skip(l0.len() as int) =~= seq![c0]);
                assert(self.injector.injected().skip(i0.len() as int) =~= Seq::<InjectCall>::empty());
                return Err(CorrectError::Platform(e));
            },
        };
        match check_source(current, from, to) {
            SourceCheck::Mismatch => {
                assert(self.layout.layout_calls().skip(l0.len() as int) =~= seq![c0]);
                assert(self.injector.injected().skip(i0.len() as int) =~= Seq::<InjectCall>::empty());
                return Err(CorrectError::LayoutChanged { from, to, found: current });
            },
            SourceCheck::AlreadyTarget => {
                assert(self.layout.layout_calls().skip(l0.len() as int) =~= seq![c0]);
            },
            SourceCheck::Switch => {
                let switched = self.layout.switch_to(to);
                let ghost c1 = LayoutCall::Switch { lang: to, result: switched };
                match switched {
                    Ok(()) => {},
                    Err(e) => {
                        assert(self.layout.layout_calls().skip(l0.len() as int) =~= seq![c0, c1]);
                        assert(self.injector.injected().skip(i0.len() as int) =~= Seq::<InjectCall>::empty());
                        return Err(CorrectError::Platform(e));
                    },
                }
                let again = self.layout.current();
                let ghost c2 = LayoutCall::Read { result: again };
                assert(self.layout.layout_calls().skip(l0.len() as int) =~= seq![c0, c1, c2]);
                assert(self.layout.layout_calls().skip(l0.len() as int).skip(2) =~= seq![c2]);
                let now = match again {
                    Ok(c) => c,
                    Err(e) => {
                        assert(self.injector.injected().skip(i0.len() as int) =~= Seq::<InjectCall>::empty());
                        return Err(CorrectError::Platform(e));
                    },
                };
                let active = match now {
                    Some(l) => l == to,
                    None => false,
                };
                if !active {
                    assert(self.injector.injected().skip(i0.len() as int) =~= Seq::<InjectCall>::empty());
                    return Err(CorrectError::TargetNotActive { to, found: now });
                }
            },
        }
        let ghost lmid = self.layout.layout_calls();
        let done = self.injector.replace_text(plan.erase, plan.replacement_text.as_str(), replacement_trailing);
        assert(self.layout.layout_calls() == lmid);
        let r = match done {
            Ok(u) => Ok(u),
            Err(e) => Err(CorrectError::Platform(e)),
        };
        proof {
            let made = self.injector.injected().skip(i0.len() as int);
            assert(made == self.injector.injected().skip(i0.len() as int));
            assert(replacement(made, plan.erase, plan.replacement_text@, replacement_trailing@, done));
            assert(r == platform_result(done));
        }
        r
    }

    /// The current system layout, if it is EN or RU and could be read: what
    /// one `LayoutSwitcher::current` read reports, `None` on a failed read.
    pub fn current_layout(&mut self) -> (r: Option<Lang>)
        ensures
            final(self).injector() == old(self).injector(),
            old(self).switcher().layout_calls().is_prefix_of(final(self).switcher().layout_calls()),
            final(self).layout_since(old(self)).len() == 1,
            final(self).layout_since(old(self))[0] matches LayoutCall::Read { result } && r == read_layout(result),
    {
        let ghost l0 = self.layout.layout_calls();
        let read = self.layout.current();
        assert(self.layout.layout_calls().skip(l0.len() as int) =~= seq![LayoutCall::Read { result: read }]);
        layout_from_read(read)
    }

    /// Insert a completion `remainder` whose letters belong to `lang`. The
    /// injector may replay physical key positions, so `lang` is made active
    /// first unless it already is.
    pub fn insert_completion(&mut self, remainder: &str, lang: Lang) -> (r: Result<(), CorrectError>)
        ensures
            final(self).extends(old(self)),
            completion_run(
                final(self).layout_since(old(self)),
                final(self).injected_since(old(self)),
                remainder@,
                lang,
                r,
            ),
    {
        let ghost l0 = self.layout.layout_calls();
        let ghost i0 = self.injector.injected();
        let read = self.layout.current();
        let ghost c0 = LayoutCall::Read { result: read };
        let active = match read {
            Ok(Some(l)) => l == lang,
            _ => false,
        };
        assert(active <==> read == Ok::<Option<Lang>, String>(Some(lang)));
        if !active {
            let switched = self.layout.switch_to(lang);
            let ghost c1 = LayoutCall::Switch { lang, result: switched };
            assert(self.layout.layout_calls().skip(l0.len() as int) =~= seq![c0, c1]);
            match switched {
                Ok(()) => {},
                Err(e) => {
                    assert(self.injector.injected().skip(i0.len() as int) =~= Seq::<InjectCall>::empty());
                    return Err(CorrectError::Platform(e));
                },
            }
        } else {
            assert(self.layout.layout_calls().skip(l0.len() as int) =~= seq![c0]);
        }
        let ghost lmid = self.layout.layout_calls();
        let done = self.injector.type_text(remainder);
        assert(self.injector.injected().skip(i0.len() as int) =~= seq![
            InjectCall::TypeText { text: remainder@, result: done },
        ]);
        assert(self.layout.layout_calls() == lmid);
        match done {
            Ok(u) => Ok(u),
            Err(e) => Err(CorrectError::Platform(e)),
        }
    }

    /// Replay a real Tab press (a swallowed accept key turned out stale).
    pub fn tab(&mut self) -> (r: Result<(), CorrectError>)
        ensures
            final(self).switcher() == old(self).switcher(),
            old(self).injector().injected().is_prefix_of(final(self).injector().injected()),
            tab_run(final(self).injected_since(old(self)), r),
    {
        let ghost i0 = self.injector.injected();
        let done = self.injector.tab();
        proof {
            if self.injector.injected() == i0.push(InjectCall::Tab { result: done }) {
                assert(self.injector.injected().skip(i0.len() as int) =~= seq![InjectCall::Tab { result: done }]);
            } else {
                assert(self.injector.injected().skip(i0.len() as int) =~= Seq::<InjectCall>::empty());
            }
        }
        let r = match done {
            Ok(u) => Ok(u),
            Err(e) => Err(CorrectError::Platform(e)),
        };
        assert(r == platform_result(done));
        r
    }
}

/// Which layout is active decides what a conversion does: with the source
/// layout active it switches (whichever direction the conversion goes),
/// with the target already active it goes straight to the replacement, and
/// with any other reading it refuses.
pub proof fn law_source_layout_switches(current: Option<Lang>, from: Lang, to: Lang)
    requires
        from != to,
    ensures
        source_check(Some(from), from, to) == SourceCheck::Switch,
        source_check(Some(to), from, to) == SourceCheck::AlreadyTarget,
        current != Some(from) && current != Some(to) ==> source_check(current, from, to) == SourceCheck::Mismatch,
{
}

/// A conversion that reads the source layout as active asks the switcher
/// for the target layout next, and injects nothing unless a second read
/// then shows the target active.
pub proof fn law_conversion_switches_from_the_source(
    layout: Seq<LayoutCall>,
    injected: Seq<InjectCall>,
    from: Lang,
    to: Lang,
    erase: int,
    text: Seq<char>,
    trailing: Seq<char>,
    r: Result<(), CorrectError>,
)
    requires
        from != to,
        conversion_run(layout, injected, from, to, erase, text, trailing, r),
        layout[0] == (LayoutCall::Read { result: Ok(Some(from)) }),
    ensures
        layout.len() >= 2,
        layout[1] matches LayoutCall::Switch { lang, .. } && lang == to,
        injected.len() > 0 ==> layout.len() == 3 && layout[2] == (LayoutCall::Read { result: Ok(Some(to)) }),
{
    if injected.len() > 0 {
        let rest = layout.skip(2);
        assert(rest[0] == layout[2]);
    }
}

} // verus!
