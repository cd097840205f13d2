//! The engine's word state between key events: the word buffer, the active
//! layout, the last completed word (for the hotkey), the last manual
//! conversion (for toggling it), and the visible suggestion. Each key event
//! is one transition here; the application performs the platform work each
//! transition asks for and reports back.

use vstd::prelude::*;

use crate::buffer::{feed_step, word_view, BufferView, Event, Word, WordBuffer};
use crate::convert::{render, render_keys, Stroke};
use crate::engine::{completion_strokes, copy_strokes, manual_plan, strokes_for, AppMode, ManualPlan, Toggle};
use crate::layout::Lang;
use crate::text::{push_str, string_from};
use crate::unicode::{str_lowercase, lowercase_str};

verus! {

broadcast use vstd::string::group_string_axioms;

/// The mathematical state of a [`Session`].
#[verifier::ext_equal]
pub struct SessionView {
    pub buffer: BufferView,
    pub active: Lang,
    /// The last completed word: keystrokes, starting layout, separator.
    pub last: Option<(Seq<Stroke>, Lang, Seq<char>)>,
    /// The last manual conversion: keystrokes, separator, displayed layout.
    pub toggle: Option<(Seq<Stroke>, Seq<char>, Lang)>,
    /// The visible completion remainder.
    pub suggestion: Option<Seq<char>>,
}

/// The separator typed after a word.
pub open spec fn sep_text(sep: Option<char>) -> Seq<char> {
    match sep {
        Some(c) => seq![c],
        None => Seq::<char>::empty(),
    }
}

/// What the overlay is told after the suggestion was recomputed.
#[derive(Clone, Debug, PartialEq, Eq)]
pub enum SuggestionUpdate {
    /// Nothing was and nothing is shown.
    Nothing,
    /// Show (or move) the hint with this remainder and intercept the accept
    /// key.
    Show(String),
    /// Hide the hint and stop intercepting.
    Hide,
}

/// What to do with the accept key.
#[derive(Debug)]
pub enum AcceptPlan {
    /// No suggestion was visible and the accept key is Tab: give the app its
    /// Tab back (the word, if any, was completed as if by Tab).
    ReplayTab,
    /// No suggestion was visible and the key is not Tab: it is dropped and
    /// the word forgotten.
    Dropped,
    /// Type `remainder` in `lang`, then count `accepted` as an accepted word.
    Insert { remainder: String, lang: Lang, accepted: Option<String> },
}

/// The engine's word state.
pub struct Session {
    buffer: WordBuffer,
    active: Lang,
    last: Option<(Word, String)>,
    toggle: Option<Toggle>,
    suggestion: Option<String>,
}

fn copy_word(w: &Word) -> (r: Word)
    ensures
        r.keys@ == w.keys@,
        r.lang == w.lang,
{
    Word { keys: copy_strokes(&w.keys), lang: w.lang }
}

impl Session {
    /// The whole state.
    pub closed spec fn view(&self) -> SessionView {
        SessionView {
            buffer: self.buffer.view(),
            active: self.active,
            last: match self.last {
                Some((w, t)) => Some((w.keys@, w.lang, t@)),
                None => None,
            },
            toggle: match self.toggle {
                Some(t) => Some((t.keys@, t.trailing@, t.lang)),
                None => None,
            },
            suggestion: match self.suggestion {
                Some(s) => Some(s@),
                None => None,
            },
        }
    }

    /// The buffer keeps its invariant.
    pub closed spec fn wf(&self) -> bool {
        self.buffer.wf()
    }

    /// A fresh session in layout `active`.
    pub fn new(active: Lang) -> (r: Self)
        ensures
            r.wf(),
            r.view() == (SessionView {
                buffer: BufferView { keys: Seq::<Stroke>::empty(), lang: active, start_lang: active, overflowed: false },
                active,
                last: None,
                toggle: None,
                suggestion: None,
            }),
    {
        Session { buffer: WordBuffer::new(active), active, last: None, toggle: None, suggestion: None }
    }

    /// The active layout as the engine knows it.
    pub fn active(&self) -> (r: Lang)
        ensures
            r == self.view().active,
    {
        self.active
    }

    /// Whether a word is being typed (if not, a letter starts one and the
    /// layout is read first).
    pub fn word_in_progress(&self) -> (r: bool)
        ensures
            r == (self.view().buffer.keys.len() > 0),
    {
        !self.buffer.is_empty()
    }

    /// The word being typed.
    pub fn current_word(&self) -> (r: Option<Word>)
        ensures
            word_view(r) == if self.view().buffer.keys.len() == 0 {
                None
            } else {
                Some((self.view().buffer.keys, self.view().buffer.start_lang))
            },
    {
        self.buffer.current()
    }

    /// Whether a suggestion is visible.
    pub fn has_suggestion(&self) -> (r: bool)
        ensures
            r == (self.view().suggestion is Some),
    {
        self.suggestion.is_some()
    }

    /// A letter key. Starting a word refreshes the active layout from
    /// `layout` (the read the application made) and forgets the last word;
    /// any typing ends the manual toggle.
    pub fn letter(&mut self, stroke: Stroke, layout: Option<Lang>)
        requires
            old(self).wf(),
        ensures
            final(self).wf(),
            ({
                let v = old(self).view();
                let starts = v.buffer.keys.len() == 0;
                let relayout = starts && layout is Some;
                let b0 = if relayout {
                    BufferView { lang: layout->0, ..v.buffer }
                } else {
                    v.buffer
                };
                final(self).view() == (SessionView {
                    buffer: feed_step(b0, Event::Letter(stroke)).0,
                    active: if relayout {
                        layout->0
                    } else {
                        v.active
                    },
                    last: if starts {
                        None
                    } else {
                        v.last
                    },
                    toggle: None,
                    ..v
                })
            }),
    {
        self.toggle = None;
        if self.buffer.is_empty() {
            match layout {
                Some(l) => {
                    self.active = l;
                    self.buffer.set_lang(l);
                },
                None => {},
            }
            self.last = None;
        }
        let _ = self.buffer.feed(Event::Letter(stroke));
    }

    /// Backspace.
    pub fn backspace(&mut self)
        requires
            old(self).wf(),
        ensures
            final(self).wf(),
            final(self).view() == (SessionView {
                buffer: feed_step(old(self).view().buffer, Event::Backspace).0,
                toggle: None,
                ..old(self).view()
            }),
    {
        self.toggle = None;
        let _ = self.buffer.feed(Event::Backspace);
    }

    /// A word boundary with separator `sep`: the suggestion goes away (the
    /// result says whether one was visible), and a completed word becomes
    /// the last word and is returned for automatic correction.
    pub fn boundary(&mut self, sep: Option<char>) -> (r: (Option<Word>, bool))
        requires
            old(self).wf(),
        ensures
            final(self).wf(),
            r.1 == (old(self).view().suggestion is Some),
            ({
                let v = old(self).view();
                let (b, w) = feed_step(v.buffer, Event::Boundary);
                &&& word_view(r.0) == w
                &&& final(self).view() == (SessionView {
                    buffer: b,
                    last: match w {
                        Some((keys, lang)) => Some((keys, lang, sep_text(sep))),
                        None => v.last,
                    },
                    toggle: None,
                    suggestion: None,
                    ..v
                })
            }),
    {
        self.toggle = None;
        let shown = self.suggestion.is_some();
        self.suggestion = None;
        let word = self.buffer.feed(Event::Boundary);
        match &word {
            Some(w) => {
                let trailing = match sep {
                    Some(c) => crate::text::string_of_char(c),
                    None => String::new(),
                };
                self.last = Some((copy_word(w), trailing));
            },
            None => {},
        }
        (word, shown)
    }

    /// Something that invalidates the word (arrows, a click, a focus
    /// change): the suggestion goes away (the result says whether one was
    /// visible), the word and the last word are forgotten.
    pub fn reset(&mut self) -> (r: bool)
        requires
            old(self).wf(),
        ensures
            final(self).wf(),
            r == (old(self).view().suggestion is Some),
            final(self).view() == (SessionView {
                buffer: feed_step(old(self).view().buffer, Event::Reset).0,
                last: None,
                toggle: None,
                suggestion: None,
                ..old(self).view()
            }),
    {
        self.toggle = None;
        let shown = self.suggestion.is_some();
        self.suggestion = None;
        let _ = self.buffer.feed(Event::Reset);
        self.last = None;
        shown
    }

    /// A completed word was auto-corrected into `to`.
    pub fn word_corrected(&mut self, to: Lang)
        ensures
            final(self).wf() == old(self).wf(),
            final(self).view() == (SessionView { active: to, last: None, ..old(self).view() }),
    {
        self.active = to;
        self.last = None;
    }

    /// Record the recomputed suggestion `want` and say what the overlay must
    /// do: nothing if nothing was and is shown, otherwise show `want` or
    /// take the hint away.
    pub fn update_suggestion(&mut self, want: Option<String>) -> (r: SuggestionUpdate)
        ensures
            final(self).wf() == old(self).wf(),
            final(self).view() == (SessionView {
                suggestion: match want {
                    Some(s) => Some(s@),
                    None => None,
                },
                ..old(self).view()
            }),
            match want {
                Some(s) => r matches SuggestionUpdate::Show(t) && t@ == s@,
                None => if old(self).view().suggestion is Some {
                    r == SuggestionUpdate::Hide
                } else {
                    r == SuggestionUpdate::Nothing
                },
            },
    {
        let had = self.suggestion.is_some();
        let r = match &want {
            Some(s) => SuggestionUpdate::Show(string_from(s.as_str())),
            None => if had {
                SuggestionUpdate::Hide
            } else {
                SuggestionUpdate::Nothing
            },
        };
        self.suggestion = want;
        r
    }

    /// The conversion hotkey: the suggestion goes away (the result says
    /// whether one was visible) and [`manual_plan`] says what to convert.
    /// Choosing the last completed word consumes it.
    pub fn hotkey(&mut self, enabled: bool, mode: AppMode) -> (r: (ManualPlan, bool))
        requires
            old(self).wf(),
        ensures
            final(self).wf(),
            r.1 == (old(self).view().suggestion is Some),
            final(self).view() == (SessionView {
                suggestion: None,
                last: if r.0 matches ManualPlan::First { in_progress, .. } && !in_progress {
                    None
                } else {
                    old(self).view().last
                },
                ..old(self).view()
            }),
            ({
                let v = old(self).view();
                &&& (!enabled || mode == AppMode::Off) ==> r.0 is Skip
                &&& (enabled && mode != AppMode::Off && v.toggle is Some) ==> (r.0 matches ManualPlan::Toggle {
                    keys,
                    from,
                    to,
                    trailing,
                } && keys@ == (v.toggle->0).0 && from == (v.toggle->0).2 && to == from.opposite() && trailing@
                    == (v.toggle->0).1)
                &&& (enabled && mode != AppMode::Off && v.toggle is None && v.buffer.keys.len() > 0) ==> (r.0 matches ManualPlan::First {
                    keys,
                    from,
                    to,
                    existing_trailing,
                    replacement_trailing,
                    in_progress,
                } && keys@ == v.buffer.keys && from == v.buffer.start_lang && to == from.opposite()
                    && existing_trailing@.len() == 0 && replacement_trailing@ == seq![' '] && in_progress)
                &&& (enabled && mode != AppMode::Off && v.toggle is None && v.buffer.keys.len() == 0 && v.last is Some)
                    ==> (r.0 matches ManualPlan::First {
                    keys,
                    from,
                    to,
                    existing_trailing,
                    replacement_trailing,
                    in_progress,
                } && keys@ == (v.last->0).0 && from == (v.last->0).1 && to == from.opposite() && existing_trailing@
                    == (v.last->0).2 && replacement_trailing@ == (v.last->0).2 && !in_progress)
                &&& (enabled && mode != AppMode::Off && v.toggle is None && v.buffer.keys.len() == 0 && v.last is None)
                    ==> r.0 is Skip
            }),
    {
        let shown = self.suggestion.is_some();
        self.suggestion = None;
        let current = self.buffer.current();
        let plan = manual_plan(enabled, mode, &self.toggle, &current, &self.last);
        match &plan {
            ManualPlan::First { in_progress, .. } => {
                if !*in_progress {
                    self.last = None;
                }
            },
            _ => {},
        }
        (plan, shown)
    }

    /// The conversion the hotkey planned finished (`ok`) or failed. A
    /// successful conversion switches the active layout and becomes the
    /// toggle; a first conversion also clears the word. A failed one
    /// changes nothing.
    pub fn manual_finished(&mut self, plan: ManualPlan, ok: bool)
        requires
            old(self).wf(),
        ensures
            final(self).wf(),
            !ok ==> final(self).view() == old(self).view(),
            ok ==> match plan {
                ManualPlan::Skip => final(self).view() == old(self).view(),
                ManualPlan::Toggle { keys, to, trailing, .. } => final(self).view() == (SessionView {
                    buffer: BufferView { lang: to, ..old(self).view().buffer },
                    active: to,
                    toggle: Some((keys@, trailing@, to)),
                    ..old(self).view()
                }),
                ManualPlan::First { keys, to, replacement_trailing, .. } => final(self).view() == (SessionView {
                    buffer: BufferView {
                        keys: Seq::<Stroke>::empty(),
                        overflowed: false,
                        lang: to,
                        ..old(self).view().buffer
                    },
                    active: to,
                    toggle: Some((keys@, replacement_trailing@, to)),
                    ..old(self).view()
                }),
            },
    {
        if !ok {
            return;
        }
        match plan {
            ManualPlan::Skip => {},
            ManualPlan::Toggle { keys, to, trailing, .. } => {
                self.active = to;
                self.buffer.set_lang(to);
                self.toggle = Some(Toggle { keys, trailing, lang: to });
            },
            ManualPlan::First { keys, to, replacement_trailing, .. } => {
                self.active = to;
                self.buffer.clear();
                self.buffer.set_lang(to);
                self.toggle = Some(Toggle { keys, trailing: replacement_trailing, lang: to });
            },
        }
    }

    /// The accept key fired. With a visible suggestion it is taken and
    /// typed in the word's layout (the active one without a word), and the
    /// whole word, lowercased, is counted as accepted. Without one, a Tab is
    /// given back and completes the word as a Tab would; any other accept
    /// key is dropped and the word forgotten.
    pub fn accept(&mut self, accept_is_tab: bool) -> (r: AcceptPlan)
        requires
            old(self).wf(),
        ensures
            final(self).wf(),
            ({
                let v = old(self).view();
                match v.suggestion {
                    Some(rem) => {
                        let lang = if v.buffer.keys.len() > 0 {
                            v.buffer.start_lang
                        } else {
                            v.active
                        };
                        &&& final(self).view() == (SessionView { suggestion: None, toggle: None, ..v })
                        &&& r matches AcceptPlan::Insert { remainder, lang: l, accepted } && remainder@ == rem && l
                            == lang && (if v.buffer.keys.len() > 0 {
                            accepted matches Some(a) && a@ == lowercase_str(
                                render(v.buffer.keys, v.buffer.start_lang) + rem,
                            )
                        } else {
                            accepted is None
                        })
                    },
                    None => if accept_is_tab {
                        let (b, w) = feed_step(v.buffer, Event::Boundary);
                        &&& r is ReplayTab
                        &&& final(self).view() == (SessionView {
                            buffer: b,
                            last: match w {
                                Some((keys, lang)) => Some((keys, lang, Seq::<char>::empty())),
                                None => v.last,
                            },
                            toggle: None,
                            ..v
                        })
                    } else {
                        &&& r is Dropped
                        &&& final(self).view() == (SessionView {
                            buffer: feed_step(v.buffer, Event::Reset).0,
                            toggle: None,
                            ..v
                        })
                    },
                }
            }),
    {
        self.toggle = None;
        let taken = self.suggestion.take();
        match taken {
            None => {
                if accept_is_tab {
                    let word = self.buffer.feed(Event::Boundary);
                    match &word {
                        Some(w) => {
                            self.last = Some((copy_word(w), String::new()));
                        },
                        None => {},
                    }
                    AcceptPlan::ReplayTab
                } else {
                    let _ = self.buffer.feed(Event::Reset);
                    AcceptPlan::Dropped
                }
            },
            Some(remainder) => {
                let current = self.buffer.current();
                let (lang, accepted) = match &current {
                    Some(w) => {
                        let mut whole = render_keys(w.keys.as_slice(), w.lang);
                        push_str(&mut whole, remainder.as_str());
                        (w.lang, Some(str_lowercase(whole.as_str())))
                    },
                    None => (self.active, None),
                };
                AcceptPlan::Insert { remainder, lang, accepted }
            },
        }
    }

    /// An accepted completion `remainder` was typed in `lang`: mirror it
    /// into the buffer so that the buffer matches the screen.
    pub fn completion_inserted(&mut self, remainder: &str, lang: Lang)
        requires
            old(self).wf(),
        ensures
            final(self).wf(),
            final(self).view().active == old(self).view().active,
            final(self).view().last == old(self).view().last,
            final(self).view().toggle == old(self).view().toggle,
            final(self).view().suggestion == old(self).view().suggestion,
            final(self).view().buffer == feed_letters(old(self).view().buffer, strokes_for(remainder@, lang)),
    {
        let strokes = completion_strokes(remainder, lang);
        let ghost start = self.buffer.view();
        let mut i: usize = 0;
        while i < strokes.len()
            invariant
                i <= strokes.len(),
                self.buffer.wf(),
                strokes@ == strokes_for(remainder@, lang),
                self.buffer.view() == feed_letters(start, strokes@.take(i as int)),
                self.active == old(self).active,
                self.last == old(self).last,
                self.toggle == old(self).toggle,
                self.suggestion == old(self).suggestion,
            decreases strokes.len() - i,
        {
            let _ = self.buffer.feed(Event::Letter(strokes[i]));
            assert(strokes@.take(i + 1).drop_last() =~= strokes@.take(i as int));
            i = i + 1;
        }
        assert(strokes@.take(strokes.len() as int) =~= strokes@);
    }
}

/// The buffer after feeding each of `strokes` as a letter.
pub open spec fn feed_letters(b: BufferView, strokes: Seq<Stroke>) -> BufferView
    decreases strokes.len(),
{
    if strokes.len() == 0 {
        b
    } else {
        feed_step(feed_letters(b, strokes.drop_last()), Event::Letter(strokes.last())).0
    }
}

} // verus!
