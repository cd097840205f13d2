//! The engine's decisions. The application runs the event loop (key events,
//! tray commands, captured keys) and performs the platform work; every
//! choice it makes in between is one of the verified functions here: how
//! the switcher behaves in the focused application, whether a completed word
//! is a candidate for automatic correction, which completion to suggest,
//! which keystrokes mirror an accepted completion, what the conversion
//! hotkey converts, and how a tray command changes the engine's switches.

use vstd::prelude::*;

use crate::buffer::Word;
use crate::config::{strings_view, Autocomplete, Settings};
use crate::convert::{render, render_keys, Stroke};
use crate::dict::{best_completion, complete, has_candidate, is_candidate, strictly_extends, word_ranks_before};
use crate::tables::dict_word;
use crate::layout::{char_to_key, key_for_char, to_lower, Lang};
use crate::platform::capture::name_view;
use crate::hotkey::{display_view, parse, parse_view, HotkeySpec};
use crate::platform::{name_tab, CaptureTarget};
use crate::text::{chars_eq, chars_of, contains_chars, is_infix, string_from, string_of};
use crate::unicode::{lower_char, str_lowercase, str_uppercase, lowercase_str, uppercase_str};
use crate::usage::WordUsage;

verus! {

broadcast use vstd::string::group_string_axioms;

/// Commands sent from the tray (or another UI) to the engine.
#[derive(Clone, Copy, Debug, PartialEq, Eq, Structural)]
pub enum Command {
    /// Toggle the master enable switch.
    ToggleEnabled,
    /// Toggle automatic correction only.
    ToggleAutocorrect,
    /// Open the configuration file in the default editor.
    OpenConfig,
    /// Reload the configuration from disk.
    ReloadConfig,
    /// Arm "press a key" capture for the conversion hotkey.
    SetHotkey,
    /// Toggle word autocomplete.
    ToggleAutocomplete,
    /// Toggle full auto (correction and suggestions) inside terminals.
    ToggleTerminalAuto,
    /// Arm "press a key" capture for the autocomplete accept key.
    SetAcceptKey,
    /// Write the autocomplete counters to the transfer file.
    ExportAutocompleteCounters,
    /// Max-merge the counters of the transfer file.
    ImportAutocompleteCounters,
    /// Toggle the OS "start at login" entry.
    ToggleAutostart,
    /// Quit the application.
    Quit,
}

/// Snapshot of the engine state the tray renders.
#[derive(Clone, Debug)]
pub struct Status {
    pub enabled: bool,
    pub autocorrect: bool,
    /// Current conversion hotkey, as configured (e.g. `"Pause"`).
    pub hotkey: String,
    /// True while waiting for a key to assign.
    pub capturing: bool,
    /// Autocomplete on and an overlay to show it.
    pub autocomplete: bool,
    /// Whether terminals get full auto.
    pub terminal_auto: bool,
    /// Current accept key, as configured (e.g. `"Tab"`).
    pub accept_key: String,
    /// Whether an OS "start at login" entry exists.
    pub autostart: bool,
}

/// How the switcher behaves in the focused application.
#[derive(Clone, Copy, Debug, PartialEq, Eq, Structural)]
pub enum AppMode {
    /// Automatic correction, suggestions and the manual hotkey all work.
    Full,
    /// Only the manual hotkey works (terminals by default).
    ManualOnly,
    /// Nothing works, not even the hotkey (password managers).
    Off,
}

/// Some non-empty entry of `list`, lowercased, occurs in `app`.
pub open spec fn listed(list: Seq<Seq<char>>, app: Seq<char>) -> bool {
    exists|i: int| 0 <= i < list.len() && list[i].len() > 0 && is_infix(#[trigger] lowercase_str(list[i]), app)
}

/// The mode for the focused application `app` (a lowercase process or class
/// name, if known) and whether it is a terminal. Hard exclusion wins over
/// everything, then terminals, then manual-only apps.
pub open spec fn focus_mode(
    excluded: Seq<Seq<char>>,
    terminals: Seq<Seq<char>>,
    terminal_auto: bool,
    manual_only: Seq<Seq<char>>,
    app: Option<Seq<char>>,
) -> (AppMode, bool) {
    match app {
        None => (AppMode::Full, false),
        Some(a) => if listed(excluded, a) {
            (AppMode::Off, false)
        } else if listed(terminals, a) {
            (if terminal_auto { AppMode::Full } else { AppMode::ManualOnly }, true)
        } else if listed(manual_only, a) {
            (AppMode::ManualOnly, false)
        } else {
            (AppMode::Full, false)
        },
    }
}

/// The focus mode under `settings`.
pub open spec fn settings_focus_mode(settings: Settings, app: Option<Seq<char>>) -> (AppMode, bool) {
    focus_mode(
        strings_view(settings.exclusions.apps@),
        strings_view(settings.terminals.apps@),
        settings.terminals.auto,
        strings_view(settings.exclusions.manual_only@),
        app,
    )
}

fn in_list(list: &Vec<String>, app: &[char]) -> (r: bool)
    ensures
        r == listed(strings_view(list@), app@),
{
    let ghost l = strings_view(list@);
    let mut i: usize = 0;
    while i < list.len()
        invariant
            l == strings_view(list@),
            i <= list.len(),
            forall|k: int| 0 <= k < i ==> !(l[k].len() > 0 && is_infix(#[trigger] lowercase_str(l[k]), app@)),
        decreases list.len() - i,
    {
        let e = &list[i];
        let lower = str_lowercase(e.as_str());
        let lv = chars_of(lower.as_str());
        let ev = chars_of(e.as_str());
        assert(l[i as int] == e@);
        assert(lv@ == lowercase_str(l[i as int]));
        if ev.len() > 0 && contains_chars(app, &lv) {
            return true;
        }
        i = i + 1;
    }
    false
}

/// Resolve how the switcher behaves in `app` and whether it is a terminal.
pub fn classify_focus(settings: &Settings, app: &Option<String>) -> (r: (AppMode, bool))
    ensures
        r == settings_focus_mode(*settings, name_view(*app)),
{
    match app {
        None => (AppMode::Full, false),
        Some(a) => {
            let v = chars_of(a.as_str());
            if in_list(&settings.exclusions.apps, &v) {
                (AppMode::Off, false)
            } else if in_list(&settings.terminals.apps, &v) {
                (if settings.terminals.auto {
                    AppMode::Full
                } else {
                    AppMode::ManualOnly
                }, true)
            } else if in_list(&settings.exclusions.manual_only, &v) {
                (AppMode::ManualOnly, false)
            } else {
                (AppMode::Full, false)
            }
        },
    }
}

/// Mixed case marks a code token (camelCase, PascalCase like `GitHub`): a
/// capital after the first key together with some lowercase key. All-caps
/// and a lone leading capital are not mixed.
pub open spec fn mixed_case(keys: Seq<Stroke>) -> bool {
    &&& exists|i: int| 1 <= i < keys.len() && (#[trigger] keys[i]).shift
    &&& exists|i: int| 0 <= i < keys.len() && !(#[trigger] keys[i]).shift
}

/// A completed word goes to detection only when the engine and automatic
/// correction are on, it ended at a Space (a separator is re-typed), the
/// focused app is in full mode, and it is not mixed case.
pub open spec fn autocorrect_gate(keys: Seq<Stroke>, sep: Option<char>, enabled: bool, autocorrect: bool, mode: AppMode) -> bool {
    &&& enabled
    &&& autocorrect
    &&& sep is Some
    &&& mode == AppMode::Full
    &&& !mixed_case(keys)
}

/// The case gate spares prose: an all-caps word and a word with only a
/// leading capital are never mixed case, while an interior capital next to
/// a lowercase key always is.
pub proof fn law_case_gate(keys: Seq<Stroke>, i: int, j: int)
    ensures
        (forall|k: int| 0 <= k < keys.len() ==> (#[trigger] keys[k]).shift) ==> !mixed_case(keys),
        (forall|k: int| 1 <= k < keys.len() ==> !(#[trigger] keys[k]).shift) ==> !mixed_case(keys),
        1 <= i < keys.len() && keys[i].shift && 0 <= j < keys.len() && !keys[j].shift ==> mixed_case(keys),
{
}

/// Whether a completed word may be auto-corrected.
pub fn should_autocorrect(keys: &[Stroke], sep: Option<char>, enabled: bool, autocorrect: bool, mode: AppMode) -> (r: bool)
    ensures
        r == autocorrect_gate(keys@, sep, enabled, autocorrect, mode),
{
    if !enabled || !autocorrect {
        return false;
    }
    if sep.is_none() {
        return false;
    }
    if mode != AppMode::Full {
        return false;
    }
    let mut interior_upper = false;
    let mut has_lower = false;
    let mut i: usize = 0;
    while i < keys.len()
        invariant
            i <= keys.len(),
            interior_upper == exists|k: int| 1 <= k < i && (#[trigger] keys@[k]).shift,
            has_lower == exists|k: int| 0 <= k < i && !(#[trigger] keys@[k]).shift,
        decreases keys.len() - i,
    {
        if i >= 1 && keys[i].shift {
            interior_upper = true;
        }
        if !keys[i].shift {
            has_lower = true;
        }
        i = i + 1;
    }
    !(interior_upper && has_lower)
}

/// All keys were typed with Shift, and there are at least two of them.
pub open spec fn all_caps(keys: Seq<Stroke>) -> bool {
    keys.len() >= 2 && forall|i: int| 0 <= i < keys.len() ==> (#[trigger] keys[i]).shift
}

/// The lowercase text typed so far.
pub open spec fn typed_prefix(w: Word) -> Seq<char> {
    lowercase_str(render(w.keys@, w.lang))
}

/// The remainder shown for the completion `full` of `w`: what `full` adds to
/// the typed prefix, in capitals when the word is typed all-caps.
pub open spec fn shown_remainder(w: Word, full: Seq<char>) -> Seq<char> {
    let rest = full.skip(typed_prefix(w).len() as int);
    if all_caps(w.keys@) {
        uppercase_str(rest)
    } else {
        rest
    }
}

/// The suggestion gates that do not depend on the dictionary: autocomplete,
/// the engine and an overlay are on, a word is in progress, and its prefix
/// is long enough.
pub open spec fn suggestion_gate(ac: Autocomplete, enabled: bool, overlay_available: bool, word: Option<Word>) -> bool {
    &&& ac.enabled
    &&& enabled
    &&& overlay_available
    &&& word is Some
    &&& typed_prefix(word->0).len() >= ac.min_prefix
}

fn all_shifted(keys: &Vec<Stroke>) -> (r: bool)
    ensures
        r == all_caps(keys@),
{
    if keys.len() < 2 {
        return false;
    }
    let mut i: usize = 0;
    while i < keys.len()
        invariant
            i <= keys.len(),
            forall|k: int| 0 <= k < i ==> (#[trigger] keys@[k]).shift,
        decreases keys.len() - i,
    {
        if !keys[i].shift {
            return false;
        }
        i = i + 1;
    }
    true
}

/// The completion remainder to suggest for the word in progress, if any:
/// the best dictionary completion (learned counts from `usage` first) of the
/// lowercase prefix, minus the prefix, when it adds at least
/// `min_remainder` characters.
pub fn compute_suggestion(
    ac: &Autocomplete,
    enabled: bool,
    overlay_available: bool,
    word: &Option<Word>,
    usage: &WordUsage,
) -> (r: Option<String>)
    requires
        usage.wf(),
    ensures
        !suggestion_gate(*ac, enabled, overlay_available, *word) ==> r is None,
        suggestion_gate(*ac, enabled, overlay_available, *word) ==> {
            let w = word->0;
            let p = typed_prefix(w);
            &&& (p.len() == 0 || !has_candidate(w.lang, p, usage.entries(w.lang), 0)) ==> r is None
            &&& r matches Some(s) ==> exists|full: Seq<char>|
                #[trigger] best_completion(w.lang, p, usage.entries(w.lang), 0, full) && full.len() - p.len()
                    >= ac.min_remainder && s@ == shown_remainder(w, full)
            &&& r is None && p.len() > 0 && has_candidate(w.lang, p, usage.entries(w.lang), 0) ==> exists|full: Seq<char>|
                #[trigger] best_completion(w.lang, p, usage.entries(w.lang), 0, full) && full.len() - p.len()
                    < ac.min_remainder
        },
{
    if !ac.enabled || !enabled || !overlay_available {
        return None;
    }
    let w = match word {
        Some(w) => w,
        None => {
            return None;
        },
    };
    let typed = render_keys(w.keys.as_slice(), w.lang);
    let prefix = str_lowercase(typed.as_str());
    let pv = chars_of(prefix.as_str());
    let prefix_len = pv.len();
    if prefix_len < ac.min_prefix {
        return None;
    }
    let full = match complete(prefix.as_str(), w.lang, usage, 0) {
        Some(f) => f,
        None => {
            return None;
        },
    };
    let fv = chars_of(full);
    proof {
        let learned = usage.entries(w.lang);
        let i = choose|i: int|
            {
                &&& is_candidate(w.lang, i, pv@, learned, 0)
                &&& dict_word(w.lang, i) == fv@
                &&& forall|j: int| is_candidate(w.lang, j, pv@, learned, 0) ==> !word_ranks_before(w.lang, learned, j, i)
            };
        assert(strictly_extends(dict_word(w.lang, i), pv@));
    }
    if fv.len() - prefix_len < ac.min_remainder {
        return None;
    }
    let rest = crate::engine::tail_string(&fv, prefix_len);
    if all_shifted(&w.keys) {
        Some(str_uppercase(rest.as_str()))
    } else {
        Some(rest)
    }
}

/// The chars of `v` from position `from` on, as a string.
fn tail_string(v: &Vec<char>, from: usize) -> (r: String)
    requires
        from <= v@.len(),
    ensures
        r@ == v@.skip(from as int),
{
    let mut out: Vec<char> = Vec::new();
    let mut i: usize = from;
    while i < v.len()
        invariant
            from <= i <= v.len(),
            out@ == v@.subrange(from as int, i as int),
        decreases v.len() - i,
    {
        out.push(v[i]);
        i = i + 1;
    }
    assert(out@ =~= v@.skip(from as int));
    string_of(&out)
}

/// The keystrokes that type `text` in `lang`: each char's key (found from
/// its lowercase form), shifted when the char is not lowercase; chars with
/// no key in `lang` are skipped.
pub open spec fn strokes_for(text: Seq<char>, lang: Lang) -> Seq<Stroke>
    decreases text.len(),
{
    if text.len() == 0 {
        seq![]
    } else {
        let c = text.last();
        let lower = lower_char(c);
        strokes_for(text.drop_last(), lang) + match key_for_char(lower, lang) {
            Some(k) => seq![Stroke { key: k, shift: c != lower }],
            None => seq![],
        }
    }
}

/// The keystrokes that mirror an injected completion into the word buffer,
/// so the buffer matches the screen.
pub fn completion_strokes(remainder: &str, lang: Lang) -> (r: Vec<Stroke>)
    ensures
        r@ == strokes_for(remainder@, lang),
{
    let v = chars_of(remainder);
    let mut out: Vec<Stroke> = Vec::new();
    let mut i: usize = 0;
    while i < v.len()
        invariant
            i <= v.len(),
            out@ == strokes_for(v@.take(i as int), lang),
        decreases v.len() - i,
    {
        let c = v[i];
        let lower = to_lower(c);
        assert(v@.take(i + 1).drop_last() =~= v@.take(i as int));
        match char_to_key(lower, lang) {
            Some(key) => {
                out.push(Stroke { key, shift: c != lower });
            },
            None => {},
        }
        i = i + 1;
    }
    assert(v@.take(v.len() as int) =~= v@);
    out
}

/// The result of the most recent manual conversion, kept so that the hotkey
/// can toggle it back and forth while nothing else is typed.
#[derive(Clone, Debug)]
pub struct Toggle {
    pub keys: Vec<Stroke>,
    pub trailing: String,
    /// The layout the text is currently displayed in.
    pub lang: Lang,
}

/// What the conversion hotkey converts.
#[derive(Debug)]
pub enum ManualPlan {
    /// Nothing: the engine is off, the app is hard-excluded, or there is no
    /// word.
    Skip,
    /// Convert back the previous manual conversion.
    Toggle { keys: Vec<Stroke>, from: Lang, to: Lang, trailing: String },
    /// Convert a word for the first time. For the word in progress nothing
    /// trails it on screen and a space is typed after it; for the last
    /// completed word its own separator is erased and re-typed.
    First {
        keys: Vec<Stroke>,
        from: Lang,
        to: Lang,
        existing_trailing: String,
        replacement_trailing: String,
        in_progress: bool,
    },
}

/// The first manual conversion prefers the word in progress, else the last
/// completed word.
pub fn manual_plan(
    enabled: bool,
    mode: AppMode,
    toggle: &Option<Toggle>,
    current: &Option<Word>,
    last: &Option<(Word, String)>,
) -> (r: ManualPlan)
    ensures
        (!enabled || mode == AppMode::Off) ==> r is Skip,
        (enabled && mode != AppMode::Off && toggle is Some) ==> (r matches ManualPlan::Toggle {
            keys,
            from,
            to,
            trailing,
        } && keys@ == toggle->0.keys@ && from == toggle->0.lang && to == from.opposite() && trailing@
            == toggle->0.trailing@),
        (enabled && mode != AppMode::Off && toggle is None && current is Some) ==> (r matches ManualPlan::First {
            keys,
            from,
            to,
            existing_trailing,
            replacement_trailing,
            in_progress,
        } && keys@ == current->0.keys@ && from == current->0.lang && to == from.opposite()
            && existing_trailing@.len() == 0 && replacement_trailing@ == seq![' '] && in_progress),
        (enabled && mode != AppMode::Off && toggle is None && current is None && last is Some) ==> (r matches ManualPlan::First {
            keys,
            from,
            to,
            existing_trailing,
            replacement_trailing,
            in_progress,
        } && keys@ == (last->0).0.keys@ && from == (last->0).0.lang && to == from.opposite()
            && existing_trailing@ == (last->0).1@ && replacement_trailing@ == (last->0).1@ && !in_progress),
        (enabled && mode != AppMode::Off && toggle is None && current is None && last is None) ==> r is Skip,
{
    if !enabled || mode == AppMode::Off {
        return ManualPlan::Skip;
    }
    match toggle {
        Some(t) => {
            return ManualPlan::Toggle {
                keys: crate::engine::copy_strokes(&t.keys),
                from: t.lang,
                to: t.lang.other(),
                trailing: crate::text::string_from(t.trailing.as_str()),
            };
        },
        None => {},
    }
    match current {
        Some(w) => {
            return ManualPlan::First {
                keys: crate::engine::copy_strokes(&w.keys),
                from: w.lang,
                to: w.lang.other(),
                existing_trailing: String::new(),
                replacement_trailing: string_of(&[' ']),
                in_progress: true,
            };
        },
        None => {},
    }
    match last {
        Some((w, trailing)) => ManualPlan::First {
            keys: crate::engine::copy_strokes(&w.keys),
            from: w.lang,
            to: w.lang.other(),
            existing_trailing: crate::text::string_from(trailing.as_str()),
            replacement_trailing: crate::text::string_from(trailing.as_str()),
            in_progress: false,
        },
        None => ManualPlan::Skip,
    }
}

/// A copy of a keystroke list.
pub fn copy_strokes(keys: &Vec<Stroke>) -> (r: Vec<Stroke>)
    ensures
        r@ == keys@,
{
    let mut out: Vec<Stroke> = Vec::new();
    let mut i: usize = 0;
    while i < keys.len()
        invariant
            i <= keys.len(),
            out@ == keys@.take(i as int),
        decreases keys.len() - i,
    {
        out.push(keys[i]);
        assert(out@ =~= keys@.take(i + 1));
        i = i + 1;
    }
    assert(keys@.take(keys.len() as int) =~= keys@);
    out
}

/// The engine's own switches that tray commands flip.
#[derive(Clone, Copy, Debug, PartialEq, Eq, Structural)]
pub struct Switches {
    /// Master enable switch.
    pub enabled: bool,
    /// Waiting for a key to assign.
    pub capturing: bool,
}

/// Platform or file work a command asks the application to do.
#[derive(Clone, Copy, Debug, PartialEq, Eq, Structural)]
pub enum CommandEffect {
    /// Nothing beyond the state change.
    Nothing,
    /// Open the configuration file.
    OpenConfig,
    /// Reload the configuration, re-apply the conversion hotkey, and forget
    /// which accept key is applied.
    ReloadConfig,
    /// Arm key capture for a target.
    BeginCapture(CaptureTarget),
    /// Persist the autocomplete switch.
    SaveAutocomplete(bool),
    /// Persist the terminal-auto switch and forget which accept key is
    /// applied.
    SaveTerminalAuto(bool),
    /// Export the autocomplete counters.
    ExportCounters,
    /// Import the autocomplete counters.
    ImportCounters,
    /// Flip the OS "start at login" entry.
    ToggleAutostart,
    /// Leave the event loop.
    Quit,
}

/// What handling a command decided.
#[derive(Clone, Copy, Debug, PartialEq, Eq, Structural)]
pub struct CommandOutcome {
    pub effect: CommandEffect,
    /// Hide a visible suggestion.
    pub dismiss_suggestion: bool,
    /// Send the tray a fresh status.
    pub broadcast: bool,
}

/// Apply a tray command to the switches and settings, and say what else
/// must happen.
pub fn apply_command(cmd: Command, sw: &mut Switches, settings: &mut Settings) -> (r: CommandOutcome)
    ensures
        final(sw).enabled == (if cmd == Command::ToggleEnabled {
            !old(sw).enabled
        } else {
            old(sw).enabled
        }),
        final(sw).capturing == (old(sw).capturing || cmd == Command::SetHotkey || cmd == Command::SetAcceptKey),
        final(settings).general.autocorrect == (if cmd == Command::ToggleAutocorrect {
            !old(settings).general.autocorrect
        } else {
            old(settings).general.autocorrect
        }),
        final(settings).autocomplete.enabled == (if cmd == Command::ToggleAutocomplete {
            !old(settings).autocomplete.enabled
        } else {
            old(settings).autocomplete.enabled
        }),
        final(settings).terminals.auto == (if cmd == Command::ToggleTerminalAuto {
            !old(settings).terminals.auto
        } else {
            old(settings).terminals.auto
        }),
        final(settings).general.min_word_len == old(settings).general.min_word_len,
        final(settings).hotkeys.convert_last_word@ == old(settings).hotkeys.convert_last_word@,
        final(settings).autocomplete.accept_key@ == old(settings).autocomplete.accept_key@,
        final(settings).autocomplete.min_prefix == old(settings).autocomplete.min_prefix,
        final(settings).autocomplete.min_remainder == old(settings).autocomplete.min_remainder,
        final(settings).terminals.accept_key@ == old(settings).terminals.accept_key@,
        strings_view(final(settings).terminals.apps@) == strings_view(old(settings).terminals.apps@),
        strings_view(final(settings).exclusions.apps@) == strings_view(old(settings).exclusions.apps@),
        strings_view(final(settings).exclusions.manual_only@) == strings_view(
            old(settings).exclusions.manual_only@,
        ),
        r.effect == match cmd {
            Command::OpenConfig => CommandEffect::OpenConfig,
            Command::ReloadConfig => CommandEffect::ReloadConfig,
            Command::SetHotkey => CommandEffect::BeginCapture(CaptureTarget::ConvertHotkey),
            Command::SetAcceptKey => CommandEffect::BeginCapture(CaptureTarget::AcceptKey),
            Command::ToggleAutocomplete => CommandEffect::SaveAutocomplete(!old(settings).autocomplete.enabled),
            Command::ToggleTerminalAuto => CommandEffect::SaveTerminalAuto(!old(settings).terminals.auto),
            Command::ExportAutocompleteCounters => CommandEffect::ExportCounters,
            Command::ImportAutocompleteCounters => CommandEffect::ImportCounters,
            Command::ToggleAutostart => CommandEffect::ToggleAutostart,
            Command::Quit => CommandEffect::Quit,
            _ => CommandEffect::Nothing,
        },
        r.dismiss_suggestion == (cmd == Command::ReloadConfig || cmd == Command::ToggleTerminalAuto || (cmd
            == Command::ToggleAutocomplete && old(settings).autocomplete.enabled)),
        r.broadcast == (cmd != Command::OpenConfig && cmd != Command::Quit && cmd != Command::ExportAutocompleteCounters
            && cmd != Command::ImportAutocompleteCounters),
{
    match cmd {
        Command::ToggleEnabled => {
            sw.enabled = !sw.enabled;
            CommandOutcome { effect: CommandEffect::Nothing, dismiss_suggestion: false, broadcast: true }
        },
        Command::ToggleAutocorrect => {
            settings.general.autocorrect = !settings.general.autocorrect;
            CommandOutcome { effect: CommandEffect::Nothing, dismiss_suggestion: false, broadcast: true }
        },
        Command::ReloadConfig => {
            CommandOutcome { effect: CommandEffect::ReloadConfig, dismiss_suggestion: true, broadcast: true }
        },
        Command::OpenConfig => {
            CommandOutcome { effect: CommandEffect::OpenConfig, dismiss_suggestion: false, broadcast: false }
        },
        Command::SetHotkey => {
            sw.capturing = true;
            CommandOutcome {
                effect: CommandEffect::BeginCapture(CaptureTarget::ConvertHotkey),
                dismiss_suggestion: false,
                broadcast: true,
            }
        },
        Command::ToggleAutocomplete => {
            let on = !settings.autocomplete.enabled;
            settings.autocomplete.enabled = on;
            CommandOutcome { effect: CommandEffect::SaveAutocomplete(on), dismiss_suggestion: !on, broadcast: true }
        },
        Command::ToggleTerminalAuto => {
            let on = !settings.terminals.auto;
            settings.terminals.auto = on;
            CommandOutcome { effect: CommandEffect::SaveTerminalAuto(on), dismiss_suggestion: true, broadcast: true }
        },
        Command::SetAcceptKey => {
            sw.capturing = true;
            CommandOutcome {
                effect: CommandEffect::BeginCapture(CaptureTarget::AcceptKey),
                dismiss_suggestion: false,
                broadcast: true,
            }
        },
        Command::ExportAutocompleteCounters => {
            CommandOutcome { effect: CommandEffect::ExportCounters, dismiss_suggestion: false, broadcast: false }
        },
        Command::ImportAutocompleteCounters => {
            CommandOutcome { effect: CommandEffect::ImportCounters, dismiss_suggestion: false, broadcast: false }
        },
        Command::ToggleAutostart => {
            CommandOutcome { effect: CommandEffect::ToggleAutostart, dismiss_suggestion: false, broadcast: true }
        },
        Command::Quit => CommandOutcome { effect: CommandEffect::Quit, dismiss_suggestion: false, broadcast: false },
    }
}

/// Install a reloaded configuration. When the file was read and parsed
/// (`Some`), the settings become it and the returned hotkey is the parse of
/// its conversion hotkey, `None` where that does not parse (the live hotkey
/// stays). When it could not be (`None`), the live settings stay and so does
/// the hotkey.
pub fn apply_reload(settings: &mut Settings, reloaded: Option<Settings>) -> (r: Option<HotkeySpec>)
    ensures
        reloaded is None ==> *final(settings) == *old(settings) && r is None,
        reloaded matches Some(s) ==> *final(settings) == s && (r is None <==> parse_view(
            s.hotkeys.convert_last_word@,
        ) is None) && (r matches Some(h) ==> parse_view(s.hotkeys.convert_last_word@) == Some(h@)),
{
    match reloaded {
        Some(s) => {
            *settings = s;
            parse(settings.hotkeys.convert_last_word.as_str())
        },
        None => None,
    }
}

/// Record a captured key: capture ends, and the key's display form becomes
/// the conversion hotkey or the autocomplete accept key, whichever was being
/// assigned. Returns that display form, which the application saves.
pub fn assign_key(target: CaptureTarget, spec: &HotkeySpec, sw: &mut Switches, settings: &mut Settings) -> (shown:
    String)
    ensures
        shown@ == display_view(spec@),
        !final(sw).capturing,
        final(sw).enabled == old(sw).enabled,
        final(settings).general == old(settings).general,
        final(settings).exclusions == old(settings).exclusions,
        final(settings).terminals == old(settings).terminals,
        final(settings).dictionary == old(settings).dictionary,
        final(settings).autocomplete.enabled == old(settings).autocomplete.enabled,
        final(settings).autocomplete.min_prefix == old(settings).autocomplete.min_prefix,
        final(settings).autocomplete.min_remainder == old(settings).autocomplete.min_remainder,
        target == CaptureTarget::ConvertHotkey ==> final(settings).hotkeys.convert_last_word@ == shown@
            && final(settings).autocomplete.accept_key == old(settings).autocomplete.accept_key,
        target == CaptureTarget::AcceptKey ==> final(settings).autocomplete.accept_key@ == shown@
            && final(settings).hotkeys == old(settings).hotkeys,
{
    let shown = spec.display();
    sw.capturing = false;
    match target {
        CaptureTarget::ConvertHotkey => {
            settings.hotkeys.convert_last_word = string_from(shown.as_str());
        },
        CaptureTarget::AcceptKey => {
            settings.autocomplete.accept_key = string_from(shown.as_str());
        },
    }
    shown
}

/// The accept key that applies in the focused application: the terminal
/// one inside a terminal, the global one elsewhere, so the global Tab does
/// not hijack shell completion.
pub fn accept_key_for(settings: &Settings, is_terminal: bool) -> (r: String)
    ensures
        r@ == (if is_terminal {
            settings.terminals.accept_key@
        } else {
            settings.autocomplete.accept_key@
        }),
{
    if is_terminal {
        string_from(settings.terminals.accept_key.as_str())
    } else {
        string_from(settings.autocomplete.accept_key.as_str())
    }
}

/// Whether the accept key is plain Tab, whose press is worth replaying when
/// a suggestion went away before it was accepted (other accept keys are
/// inert on their own).
pub fn is_tab_key(spec: &HotkeySpec) -> (r: bool)
    ensures
        r == (spec.key@ == name_tab()),
{
    let k = chars_of(spec.key.as_str());
    let t = ['T', 'A', 'B'];
    assert(t@ =~= name_tab());
    chars_eq(&k, &t)
}

/// Hard exclusion beats every other list: an app named in `[exclusions]
/// apps` is off even if it is also a terminal or manual-only.
pub proof fn law_exclusion_wins(
    excluded: Seq<Seq<char>>,
    terminals: Seq<Seq<char>>,
    terminal_auto: bool,
    manual_only: Seq<Seq<char>>,
    app: Seq<char>,
)
    requires
        listed(excluded, app),
    ensures
        focus_mode(excluded, terminals, terminal_auto, manual_only, Some(app)) == (AppMode::Off, false),
{
}

} // verus!
