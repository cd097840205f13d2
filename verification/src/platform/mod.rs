//! The OS abstraction boundary: the event model shared by all capture
//! backends, the traits a backend implements, and the pure decision logic of
//! the individual backends (key maps, echo suppression, hotkey edges, layout
//! classification).

pub mod capture;
pub mod keynames;
pub mod mac_keymap;
pub mod mac_layout;
pub mod mac_tap;
pub mod suppress;
pub mod win_hook;
pub mod win_inject;
pub mod win_keymap;
pub mod win_layout;
pub mod xkb;
pub mod x11_inject;
pub mod x11_keymap;
pub mod x11_record;

use vstd::prelude::*;

use crate::hotkey::{HotkeySpec, HotkeyView};
use crate::keycode::PhysKey;
use crate::layout::Lang;
use crate::text::{string_from, string_of};

verus! {

/// Classification of a physical key for the engine, decided by the backend
/// from the physical key and the current modifier state.
#[derive(Clone, Copy, Debug, PartialEq, Eq, Structural)]
pub enum KeyKind {
    /// A letter key on the main block, with its Shift state.
    Letter { key: PhysKey, shift: bool },
    /// Backspace.
    Backspace,
    /// A word-boundary key. `sep` is the separator to re-type after a
    /// correction (`Some(' ')` for Space); `None` ends the word without
    /// auto-correcting (Enter, Tab, digits).
    Boundary { sep: Option<char> },
    /// The convert-last-word hotkey fired.
    Hotkey,
    /// Something that invalidates the word buffer (arrows, Esc, a modifier
    /// chord, a click, a focus or layout change).
    Reset,
    /// The autocomplete accept key fired while a suggestion was visible.
    Accept,
}

/// A single key transition observed by a capture backend.
#[derive(Clone, Copy, Debug, PartialEq, Eq, Structural)]
pub struct KeyEvent {
    /// The logical action this key stands for.
    pub kind: KeyKind,
    /// True on key-down; the engine acts on key-down only.
    pub down: bool,
    /// True if the event was synthesized by our own injector.
    pub injected: bool,
}

/// Command for the suggestion overlay.
#[derive(Clone, Debug, PartialEq, Eq)]
pub enum OverlayCmd {
    /// Show (or update) the gray completion hint.
    Show { text: String },
    /// Hide the hint.
    Hide,
    /// Tear down the overlay.
    Shutdown,
}

/// Command sent to a backend's accept-key interception when its state changes.
#[derive(Clone, Debug)]
pub enum InterceptCmd {
    /// Start or stop swallowing the accept key.
    Active(bool),
    /// The accept key was reassigned.
    Spec(HotkeySpec),
}

/// What an armed "press a key" capture will assign.
#[derive(Clone, Copy, Debug, PartialEq, Eq, Structural)]
pub enum CaptureTarget {
    /// The manual-conversion hotkey.
    ConvertHotkey,
    /// The autocomplete accept key.
    AcceptKey,
}

/// One request an injector carried out, with what it reported.
pub enum InjectCall {
    /// [`KeyInjector::backspaces`].
    Backspaces { n: usize, result: Result<(), String> },
    /// [`KeyInjector::type_text`].
    TypeText { text: Seq<char>, result: Result<(), String> },
    /// A platform's own atomic [`KeyInjector::replace_text`].
    ReplaceText { erase: usize, text: Seq<char>, trailing: Seq<char>, result: Result<(), String> },
    /// [`KeyInjector::tab`].
    Tab { result: Result<(), String> },
}

/// The history of an injector: the requests it carried out, oldest first.
/// It is ghost state, there for the contracts and never computed at run
/// time.
pub type InjectHistory = Seq<InjectCall>;

/// The history of a layout switcher: the reads and switches it carried out,
/// oldest first. Like [`InjectHistory`] it is ghost state.
pub type LayoutHistory = Seq<LayoutCall>;

/// `calls` carry out a replacement of `erase` characters by `text` and
/// `trailing` that reported `r`: either one atomic replacement, or
/// Backspaces, then `text`, then `trailing` unless it is empty, stopping at
/// the first failure, which is what is reported.
pub open spec fn replacement(
    calls: Seq<InjectCall>,
    erase: usize,
    text: Seq<char>,
    trailing: Seq<char>,
    r: Result<(), String>,
) -> bool {
    ||| calls == seq![InjectCall::ReplaceText { erase, text, trailing, result: r }]
    ||| calls.len() >= 1 && match calls[0] {
        InjectCall::Backspaces { n, result: erased } => n == erase && if erased is Err {
            calls.len() == 1 && r == erased
        } else {
            calls.len() >= 2 && match calls[1] {
                InjectCall::TypeText { text: t, result: typed } => t == text && if typed is Err || trailing.len()
                    == 0 {
                    calls.len() == 2 && r == typed
                } else {
                    calls.len() == 3 && calls[2] == InjectCall::TypeText { text: trailing, result: r }
                },
                _ => false,
            }
        },
        _ => false,
    }
}

/// Synthesizes keyboard input for a platform. Each implementation keeps a
/// history of the requests it carried out ([`KeyInjector::injected`]);
/// every operation states how it extends that history. The history is a
/// specification: an implementation verified elsewhere defines it, and an
/// unverified one only declares it, as it is never asked for at run time.
pub trait KeyInjector {
    /// The requests carried out so far, oldest first.
    spec fn injected(&self) -> InjectHistory;

    /// Send `n` Backspace presses.
    fn backspaces(&mut self, n: usize) -> (r: Result<(), String>)
        ensures
            final(self).injected() == old(self).injected().push(InjectCall::Backspaces { n, result: r }),
    ;

    /// Type `text` as Unicode input.
    fn type_text(&mut self, text: &str) -> (r: Result<(), String>)
        ensures
            final(self).injected() == old(self).injected().push(InjectCall::TypeText { text: text@, result: r }),
    ;

    /// Replace `erase` characters with `text` followed by `trailing`.
    /// Platforms without a batch primitive use this sequential default: send
    /// `erase` Backspaces, type `text`, then type `trailing` unless it is
    /// empty, stopping at the first failure and passing it on.
    fn replace_text(&mut self, erase: usize, text: &str, trailing: &str) -> (r: Result<(), String>)
        ensures
            old(self).injected().is_prefix_of(final(self).injected()),
            replacement(
                final(self).injected().skip(old(self).injected().len() as int),
                erase,
                text@,
                trailing@,
                r,
            ),
    {
        let ghost start = self.injected();
        let erased = self.backspaces(erase);
        let ghost c0 = InjectCall::Backspaces { n: erase, result: erased };
        if erased.is_err() {
            assert(self.injected().skip(start.len() as int) =~= seq![c0]);
            return erased;
        }
        let typed = self.type_text(text);
        let ghost c1 = InjectCall::TypeText { text: text@, result: typed };
        if typed.is_err() || trailing.is_empty() {
            assert(self.injected().skip(start.len() as int) =~= seq![c0, c1]);
            return typed;
        }
        let last = self.type_text(trailing);
        let ghost c2 = InjectCall::TypeText { text: trailing@, result: last };
        assert(self.injected().skip(start.len() as int) =~= seq![c0, c1, c2]);
        last
    }

    /// Send one real Tab press. A successful press is one `Tab` request; a
    /// failed one may not have reached the platform at all. Platforms that
    /// cannot inject one keep this default, which reports that it is not
    /// supported.
    fn tab(&mut self) -> (r: Result<(), String>)
        ensures
            final(self).injected() == old(self).injected().push(InjectCall::Tab { result: r }) || (r is Err
                && final(self).injected() == old(self).injected()),
        default_ensures
            r matches Err(e) && e@ == tab_unsupported(),
    {
        Err(string_from("tab injection not supported on this platform"))
    }
}

/// The message of the default [`KeyInjector::tab`].
pub open spec fn tab_unsupported() -> Seq<char> {
    "tab injection not supported on this platform"@
}

/// One request a layout switcher carried out, with what it reported.
pub enum LayoutCall {
    /// [`LayoutSwitcher::current`].
    Read { result: Result<Option<Lang>, String> },
    /// [`LayoutSwitcher::switch_to`].
    Switch { lang: Lang, result: Result<(), String> },
}

/// Reads and switches the active system keyboard layout. Each
/// implementation keeps a history of the reads and switches it carried out
/// ([`LayoutSwitcher::layout_calls`]).
pub trait LayoutSwitcher {
    /// The reads and switches carried out so far, oldest first.
    spec fn layout_calls(&self) -> LayoutHistory;

    /// The current layout; `None` when it is neither EN nor RU.
    fn current(&mut self) -> (r: Result<Option<Lang>, String>)
        ensures
            final(self).layout_calls() == old(self).layout_calls().push(LayoutCall::Read { result: r }),
    ;

    /// Switch the active layout to `lang`.
    fn switch_to(&mut self, lang: Lang) -> (r: Result<(), String>)
        ensures
            final(self).layout_calls() == old(self).layout_calls().push(LayoutCall::Switch { lang, result: r }),
    ;
}

/// Best-effort information about the focused input.
pub trait FocusInfo {
    /// Whether the focused input is a password field. Backends that cannot
    /// tell keep this default: never a password field.
    fn is_password_field(&self) -> (r: bool)
        default_ensures
            !r,
    {
        false
    }

    /// Lowercase process or app name of the focused window, if known.
    /// Backends that cannot tell keep this default: not known.
    fn focused_app(&self) -> (r: Option<String>)
        default_ensures
            r is None,
    {
        None
    }
}

/// Overlay for platforms without a real one: it shows nothing.
pub struct StubOverlay;

impl StubOverlay {
    /// A stub overlay is never available, so autocomplete stays inert.
    pub fn available(&self) -> (r: bool)
        ensures
            !r,
    {
        false
    }
}

/// The name of the default accept key.
pub open spec fn name_tab() -> Seq<char> {
    seq!['T', 'A', 'B']
}

/// The accept key backends start with: plain Tab.
pub fn default_accept() -> (r: HotkeySpec)
    ensures
        r@ == (HotkeyView { ctrl: false, shift: false, alt: false, meta: false, key: name_tab() }),
{
    HotkeySpec { ctrl: false, shift: false, alt: false, meta: false, key: string_of(&['T', 'A', 'B']) }
}

} // verus!
