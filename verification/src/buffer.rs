//! Per-word buffer of physical keystrokes.
//!
//! The engine feeds every key event here. The buffer accumulates letter
//! keystrokes into the "current word" and reports a completed word when a
//! boundary key arrives. It stays in sync with the visible text by tracking
//! Backspace.

use vstd::prelude::*;

use crate::convert::Stroke;
use crate::layout::Lang;

verus! {

/// Maximum keystrokes tracked in a single word. Longer words are simply not
/// eligible for correction (tracking resumes at the next boundary or reset).
pub const MAX_WORD: usize = 64;

/// What a single fed event means for word tracking.
#[derive(Clone, Copy, PartialEq, Eq, Debug, Structural)]
pub enum Event {
    /// A letter keystroke on the main block.
    Letter(Stroke),
    /// Backspace: remove the last keystroke.
    Backspace,
    /// A key that ends the current word (space, enter, tab, punctuation, digit).
    Boundary,
    /// Anything that invalidates the buffer: arrows, mouse click, Esc, a
    /// modifier chord (Ctrl/Alt/Cmd+key), focus change, or a user layout switch.
    Reset,
}

/// A completed word ready for detection.
#[derive(Clone, Debug, PartialEq, Eq)]
pub struct Word {
    pub keys: Vec<Stroke>,
    /// The active layout when the word started.
    pub lang: Lang,
}

/// The mathematical state of a [`WordBuffer`].
#[verifier::ext_equal]
pub struct BufferView {
    pub keys: Seq<Stroke>,
    pub lang: Lang,
    pub start_lang: Lang,
    pub overflowed: bool,
}

/// The effect of feeding `event` to a buffer in state `v`: the next state,
/// and the completed word (keystrokes and starting layout), if any.
pub open spec fn feed_step(v: BufferView, event: Event) -> (BufferView, Option<(Seq<Stroke>, Lang)>) {
    match event {
        Event::Letter(stroke) => if v.overflowed {
            (v, None)
        } else if v.keys.len() >= MAX_WORD {
            (BufferView { keys: Seq::<Stroke>::empty(), overflowed: true, ..v }, None)
        } else {
            (
                BufferView {
                    keys: v.keys.push(stroke),
                    overflowed: false,
                    start_lang: if v.keys.len() == 0 {
                        v.lang
                    } else {
                        v.start_lang
                    },
                    ..v
                },
                None,
            )
        },
        Event::Backspace => (
            BufferView {
                keys: if v.keys.len() == 0 {
                    v.keys
                } else {
                    v.keys.drop_last()
                },
                ..v
            },
            None,
        ),
        Event::Boundary => (
            BufferView { keys: Seq::<Stroke>::empty(), overflowed: false, ..v },
            if v.keys.len() == 0 {
                None
            } else {
                Some((v.keys, v.start_lang))
            },
        ),
        Event::Reset => (BufferView { keys: Seq::<Stroke>::empty(), overflowed: false, ..v }, None),
    }
}

/// The view of an optional completed word.
pub open spec fn word_view(w: Option<Word>) -> Option<(Seq<Stroke>, Lang)> {
    match w {
        Some(w) => Some((w.keys@, w.lang)),
        None => None,
    }
}

/// Accumulates keystrokes into words.
#[derive(Debug)]
pub struct WordBuffer {
    keys: Vec<Stroke>,
    lang: Lang,
    /// Layout at the moment the current word's first key was pressed.
    word_start_lang: Lang,
    /// Once a word overflows, its untracked prefix makes every suffix unsafe
    /// to correct. Resume tracking only after a boundary or explicit reset.
    overflowed: bool,
}

impl WordBuffer {
    /// Keystrokes of the word being typed.
    pub closed spec fn keys_view(&self) -> Seq<Stroke> {
        self.keys@
    }

    /// The active layout.
    pub closed spec fn lang_view(&self) -> Lang {
        self.lang
    }

    /// The layout that was active when the current word started.
    pub closed spec fn start_lang_view(&self) -> Lang {
        self.word_start_lang
    }

    /// Whether the current word outgrew [`MAX_WORD`] and is no longer tracked.
    pub closed spec fn overflowed_view(&self) -> bool {
        self.overflowed
    }

    /// The whole state.
    pub open spec fn view(&self) -> BufferView {
        BufferView {
            keys: self.keys_view(),
            lang: self.lang_view(),
            start_lang: self.start_lang_view(),
            overflowed: self.overflowed_view(),
        }
    }

    /// The buffer never holds more than [`MAX_WORD`] keystrokes, and holds
    /// none while an overflowed word is being skipped.
    pub open spec fn wf(&self) -> bool {
        &&& self.keys_view().len() <= MAX_WORD
        &&& self.overflowed_view() ==> self.keys_view().len() == 0
    }

    pub fn new(lang: Lang) -> (r: Self)
        ensures
            r.wf(),
            r.keys_view() == Seq::<Stroke>::empty(),
            r.lang_view() == lang,
            r.start_lang_view() == lang,
            !r.overflowed_view(),
    {
        WordBuffer { keys: Vec::new(), lang, word_start_lang: lang, overflowed: false }
    }

    /// Current active layout (updated by the engine when the user switches).
    pub fn set_lang(&mut self, lang: Lang)
        ensures
            final(self).lang_view() == lang,
            final(self).keys_view() == old(self).keys_view(),
            final(self).start_lang_view() == old(self).start_lang_view(),
            final(self).overflowed_view() == old(self).overflowed_view(),
    {
        self.lang = lang;
    }

    /// True if no keystrokes are buffered for the current word.
    pub fn is_empty(&self) -> (r: bool)
        ensures
            r == (self.keys_view().len() == 0),
    {
        self.keys.len() == 0
    }

    /// The word being typed right now (may be empty).
    pub fn current(&self) -> (r: Option<Word>)
        ensures
            self.keys_view().len() == 0 ==> r is None,
            self.keys_view().len() > 0 ==> (r matches Some(w) && w.keys@ == self.keys_view()
                && w.lang == self.start_lang_view()),
    {
        if self.keys.len() == 0 {
            None
        } else {
            Some(Word { keys: self.keys.clone(), lang: self.word_start_lang })
        }
    }

    /// Feed one event. Returns the completed word when `event` is a boundary.
    pub fn feed(&mut self, event: Event) -> (r: Option<Word>)
        requires
            old(self).wf(),
        ensures
            final(self).wf(),
            final(self).lang_view() == old(self).lang_view(),
            (final(self).view(), word_view(r)) == feed_step(old(self).view(), event),
            match event {
                Event::Letter(stroke) => {
                    &&& r is None
                    &&& if old(self).overflowed_view() {
                        &&& final(self).keys_view() == old(self).keys_view()
                        &&& final(self).overflowed_view()
                        &&& final(self).start_lang_view() == old(self).start_lang_view()
                    } else if old(self).keys_view().len() >= MAX_WORD {
                        &&& final(self).keys_view() == Seq::<Stroke>::empty()
                        &&& final(self).overflowed_view()
                        &&& final(self).start_lang_view() == old(self).start_lang_view()
                    } else {
                        &&& final(self).keys_view() == old(self).keys_view().push(stroke)
                        &&& !final(self).overflowed_view()
                        &&& final(self).start_lang_view() == if old(self).keys_view().len() == 0 {
                            old(self).lang_view()
                        } else {
                            old(self).start_lang_view()
                        }
                    }
                },
                Event::Backspace => {
                    &&& r is None
                    &&& final(self).keys_view() == if old(self).keys_view().len() == 0 {
                        old(self).keys_view()
                    } else {
                        old(self).keys_view().drop_last()
                    }
                    &&& final(self).overflowed_view() == old(self).overflowed_view()
                    &&& final(self).start_lang_view() == old(self).start_lang_view()
                },
                Event::Boundary => {
                    &&& !final(self).overflowed_view()
                    &&& final(self).keys_view() == Seq::<Stroke>::empty()
                    &&& final(self).start_lang_view() == old(self).start_lang_view()
                    &&& if old(self).keys_view().len() == 0 {
                        r is None
                    } else {
                        r matches Some(w) && w.keys@ == old(self).keys_view() && w.lang == old(
                            self,
                        ).start_lang_view()
                    }
                },
                Event::Reset => {
                    &&& r is None
                    &&& final(self).keys_view() == Seq::<Stroke>::empty()
                    &&& !final(self).overflowed_view()
                    &&& final(self).start_lang_view() == old(self).start_lang_view()
                },
            },
    {
        match event {
            Event::Letter(stroke) => {
                if self.overflowed {
                    return None;
                }
                if self.keys.len() == 0 {
                    self.word_start_lang = self.lang;
                }
                if self.keys.len() >= MAX_WORD {
                    self.keys.clear();
                    self.overflowed = true;
                } else {
                    self.keys.push(stroke);
                }
                None
            },
            Event::Backspace => {
                self.keys.pop();
                None
            },
            Event::Boundary => {
                self.overflowed = false;
                if self.keys.len() == 0 {
                    None
                } else {
                    let mut keys: Vec<Stroke> = Vec::new();
                    std::mem::swap(&mut keys, &mut self.keys);
                    Some(Word { keys, lang: self.word_start_lang })
                }
            },
            Event::Reset => {
                self.clear();
                None
            },
        }
    }

    /// Clear the current word (e.g. after a manual conversion consumes it).
    pub fn clear(&mut self)
        ensures
            final(self).keys_view() == Seq::<Stroke>::empty(),
            !final(self).overflowed_view(),
            final(self).lang_view() == old(self).lang_view(),
            final(self).start_lang_view() == old(self).start_lang_view(),
            final(self).wf(),
    {
        self.keys.clear();
        self.overflowed = false;
    }
}

} // verus!
