//! The configuration schema and its defaults. Every section has a default,
//! so a partial or empty configuration still loads; reading and writing the
//! file is the application's business.

use vstd::prelude::*;

use crate::text::string_of;

verus! {

/// The views of a list of strings.
pub open spec fn strings_view(v: Seq<String>) -> Seq<Seq<char>> {
    v.map_values(|s: String| s@)
}

/// `[general]`.
#[derive(Clone, Debug)]
pub struct General {
    /// Master switch for automatic wrong-layout correction.
    pub autocorrect: bool,
    /// Minimum physical-key length before a word is eligible for detection.
    pub min_word_len: usize,
}

/// `[hotkeys]`.
#[derive(Clone, Debug)]
pub struct Hotkeys {
    /// Key (or chord) that converts the last word and switches layout, e.g.
    /// `"Pause"` or `"Ctrl+Shift+K"`.
    pub convert_last_word: String,
}

/// `[exclusions]`.
#[derive(Clone, Debug)]
pub struct Exclusions {
    /// App-name substrings where the switcher is fully off, the manual hotkey
    /// included (password managers).
    pub apps: Vec<String>,
    /// App-name substrings where automatic correction and suggestions are
    /// off but the manual hotkey still works.
    pub manual_only: Vec<String>,
    /// Typed forms that must never be auto-corrected.
    pub words: Vec<String>,
}

/// `[terminals]`: manual-only by default, with an opt-in to full auto and a
/// separate accept key so Tab stays free for the shell.
#[derive(Clone, Debug)]
pub struct Terminals {
    /// App-name substrings (lowercased window class) treated as terminals.
    pub apps: Vec<String>,
    /// false: manual-only; true: full auto.
    pub auto: bool,
    /// Accept key used inside terminals.
    pub accept_key: String,
}

/// `[dictionary]`.
#[derive(Clone, Debug)]
pub struct Dictionary {
    /// Extra English words treated as valid.
    pub extra_en: Vec<String>,
    /// Extra Russian words treated as valid.
    pub extra_ru: Vec<String>,
}

/// `[autocomplete]`.
#[derive(Clone, Debug)]
pub struct Autocomplete {
    /// Master switch for inline word suggestions.
    pub enabled: bool,
    /// Key that inserts the suggested completion, e.g. `"Tab"`.
    pub accept_key: String,
    /// Minimum typed letters before a suggestion is shown.
    pub min_prefix: usize,
    /// Minimum letters the completion must add to be worth showing.
    pub min_remainder: usize,
}

/// The sections the engine's decisions read (everything but the detection
/// threshold, which only the statistical scorer uses).
#[derive(Clone, Debug)]
pub struct Settings {
    pub general: General,
    pub hotkeys: Hotkeys,
    pub exclusions: Exclusions,
    pub terminals: Terminals,
    pub dictionary: Dictionary,
    pub autocomplete: Autocomplete,
}

impl Default for General {
    fn default() -> (r: Self)
        ensures
            r.autocorrect,
            r.min_word_len == 3,
    {
        General { autocorrect: true, min_word_len: 3 }
    }
}

impl Default for Hotkeys {
    fn default() -> (r: Self)
        ensures
            r.convert_last_word@ == seq!['P', 'a', 'u', 's', 'e'],
    {
        Hotkeys { convert_last_word: string_of(&['P', 'a', 'u', 's', 'e']) }
    }
}

impl Default for Exclusions {
    fn default() -> (r: Self)
        ensures
            r.apps@.len() == 0,
            r.manual_only@.len() == 0,
            r.words@.len() == 0,
    {
        Exclusions { apps: Vec::new(), manual_only: Vec::new(), words: Vec::new() }
    }
}

/// The terminals recognized out of the box.
pub open spec fn default_terminal_apps() -> Seq<Seq<char>> {
    seq![seq!['p', 't', 'y', 'x', 'i', 's'], seq!['g', 'n', 'o', 'm', 'e', '-', 't', 'e', 'r', 'm', 'i', 'n', 'a', 'l'], seq!['x', 't', 'e', 'r', 'm'], seq!['k', 'o', 'n', 's', 'o', 'l', 'e'], seq!['a', 'l', 'a', 'c', 'r', 'i', 't', 't', 'y'], seq!['k', 'i', 't', 't', 'y'], seq!['t', 'e', 'r', 'm', 'i', 'n', 'a', 't', 'o', 'r'], seq!['x', 'f', 'c', 'e', '4', '-', 't', 'e', 'r', 'm', 'i', 'n', 'a', 'l'], seq!['t', 'i', 'l', 'i', 'x'], seq!['w', 'e', 'z', 't', 'e', 'r', 'm']]
}

impl Default for Terminals {
    fn default() -> (r: Self)
        ensures
            strings_view(r.apps@) == default_terminal_apps(),
            !r.auto,
            r.accept_key@ == seq!['R', 'i', 'g', 'h', 't'],
    {
        let mut apps: Vec<String> = Vec::new();
        apps.push(string_of(&['p', 't', 'y', 'x', 'i', 's']));
        apps.push(string_of(&['g', 'n', 'o', 'm', 'e', '-', 't', 'e', 'r', 'm', 'i', 'n', 'a', 'l']));
        apps.push(string_of(&['x', 't', 'e', 'r', 'm']));
        apps.push(string_of(&['k', 'o', 'n', 's', 'o', 'l', 'e']));
        apps.push(string_of(&['a', 'l', 'a', 'c', 'r', 'i', 't', 't', 'y']));
        apps.push(string_of(&['k', 'i', 't', 't', 'y']));
        apps.push(string_of(&['t', 'e', 'r', 'm', 'i', 'n', 'a', 't', 'o', 'r']));
        apps.push(string_of(&['x', 'f', 'c', 'e', '4', '-', 't', 'e', 'r', 'm', 'i', 'n', 'a', 'l']));
        apps.push(string_of(&['t', 'i', 'l', 'i', 'x']));
        apps.push(string_of(&['w', 'e', 'z', 't', 'e', 'r', 'm']));
        let r = Terminals { apps, auto: false, accept_key: string_of(&['R', 'i', 'g', 'h', 't']) };
        assert(strings_view(r.apps@) =~= default_terminal_apps());
        r
    }
}

impl Default for Dictionary {
    fn default() -> (r: Self)
        ensures
            r.extra_en@.len() == 0,
            r.extra_ru@.len() == 0,
    {
        Dictionary { extra_en: Vec::new(), extra_ru: Vec::new() }
    }
}

impl Default for Autocomplete {
    fn default() -> (r: Self)
        ensures
            r.enabled,
            r.accept_key@ == seq!['T', 'a', 'b'],
            r.min_prefix == 3,
            r.min_remainder == 1,
    {
        Autocomplete { enabled: true, accept_key: string_of(&['T', 'a', 'b']), min_prefix: 3, min_remainder: 1 }
    }
}

impl Default for Settings {
    fn default() -> (r: Self)
        ensures
            r.general.autocorrect,
            r.general.min_word_len == 3,
            r.hotkeys.convert_last_word@ == seq!['P', 'a', 'u', 's', 'e'],
            r.exclusions.apps@.len() == 0,
            r.exclusions.manual_only@.len() == 0,
            r.exclusions.words@.len() == 0,
            strings_view(r.terminals.apps@) == default_terminal_apps(),
            !r.terminals.auto,
            r.terminals.accept_key@ == seq!['R', 'i', 'g', 'h', 't'],
            r.dictionary.extra_en@.len() == 0,
            r.dictionary.extra_ru@.len() == 0,
            r.autocomplete.enabled,
            r.autocomplete.accept_key@ == seq!['T', 'a', 'b'],
            r.autocomplete.min_prefix == 3,
            r.autocomplete.min_remainder == 1,
    {
        Settings {
            general: General::default(),
            hotkeys: Hotkeys::default(),
            exclusions: Exclusions::default(),
            terminals: Terminals::default(),
            dictionary: Dictionary::default(),
            autocomplete: Autocomplete::default(),
        }
    }
}

} // verus!
