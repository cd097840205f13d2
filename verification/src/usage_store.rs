//! The autocomplete acceptance counters as the application keeps them: in
//! memory, optionally backed by a canonical file and a portable transfer
//! file. Reading and writing the files is the application's work; this
//! module decides what a loaded file may contain and what each operation
//! does to the counters.

use vstd::prelude::*;

use crate::dict::{contains, in_dictionary};
use crate::layout::Lang;
use crate::text::string_from;
use crate::unicode::{str_lowercase, lowercase_str};
use crate::usage::{
    count_raises, has_word, merged_count, merged_has, saturating_inc, tagged, word_count, WordUsage,
};

verus! {

broadcast use vstd::string::group_string_axioms;

/// The counter file format version this build reads and writes.
pub const USAGE_FILE_VERSION: u32 = 1;

/// Why a counter file or a transfer was refused.
#[derive(Clone, Debug, PartialEq, Eq)]
pub enum UsageError {
    /// The store has no config directory, so there is no file to use.
    Unavailable,
    /// The file declares another format version.
    UnsupportedVersion(u32),
    /// A word has a zero counter.
    ZeroCount(String),
    /// A word is not in lowercase.
    NotLowercase(String),
    /// A word is not in the built-in dictionary of its language.
    NotInDictionary(String),
}

/// What is wrong with one counter entry, in the order the checks run.
#[derive(Clone, Copy, Debug, PartialEq, Eq, Structural)]
pub enum Fault {
    Zero,
    NotLower,
    Unknown,
}

/// The first problem of a `(language, word, count)` entry, if any.
pub open spec fn entry_fault(e: (Lang, Seq<char>, u32)) -> Option<Fault> {
    if e.2 == 0 {
        Some(Fault::Zero)
    } else if lowercase_str(e.1) != e.1 {
        Some(Fault::NotLower)
    } else if !in_dictionary(lowercase_str(e.1), e.0) {
        Some(Fault::Unknown)
    } else {
        None
    }
}

/// All counter entries, English first, each language in word order.
pub open spec fn all_entries(u: WordUsage) -> Seq<(Lang, Seq<char>, u32)> {
    tagged(Lang::En, u.entries(Lang::En)) + tagged(Lang::Ru, u.entries(Lang::Ru))
}

/// The error reported for a fault of `word`.
pub open spec fn fault_error(f: Fault, word: Seq<char>, err: UsageError) -> bool {
    match f {
        Fault::Zero => err matches UsageError::ZeroCount(w) && w@ == word,
        Fault::NotLower => err matches UsageError::NotLowercase(w) && w@ == word,
        Fault::Unknown => err matches UsageError::NotInDictionary(w) && w@ == word,
    }
}

/// Accept a loaded counter file only if it has the current version and
/// every entry has a non-zero count and is a lowercase dictionary word of
/// its language; otherwise report the first offending entry.
pub fn validate_file(version: u32, usage: WordUsage) -> (r: Result<WordUsage, UsageError>)
    ensures
        version != USAGE_FILE_VERSION ==> r == Err::<WordUsage, UsageError>(UsageError::UnsupportedVersion(version)),
        version == USAGE_FILE_VERSION ==> {
            let es = all_entries(usage);
            &&& (forall|i: int| 0 <= i < es.len() ==> #[trigger] entry_fault(es[i]) is None) ==> (r matches Ok(u)
                && u.entries(Lang::En) == usage.entries(Lang::En) && u.entries(Lang::Ru) == usage.entries(
                Lang::Ru,
            ))
            &&& r matches Err(e) ==> exists|i: int|
                0 <= i < es.len() && (forall|j: int| 0 <= j < i ==> #[trigger] entry_fault(es[j]) is None)
                    && (#[trigger] entry_fault(es[i]) matches Some(f) && fault_error(f, es[i].1, e))
            &&& r is Ok ==> forall|i: int| 0 <= i < es.len() ==> #[trigger] entry_fault(es[i]) is None
        },
{
    if version != USAGE_FILE_VERSION {
        return Err(UsageError::UnsupportedVersion(version));
    }
    let items = usage.iter();
    let ghost es = all_entries(usage);
    assert(items@.len() == es.len()) by {
        assert(items@.map_values(|t: (Lang, String, u32)| (t.0, t.1@, t.2)).len() == items@.len());
    }
    let mut i: usize = 0;
    while i < items.len()
        invariant
            version == USAGE_FILE_VERSION,
            es == all_entries(usage),
            i <= items@.len(),
            items@.len() == es.len(),
            items@.map_values(|t: (Lang, String, u32)| (t.0, t.1@, t.2)) == es,
            forall|j: int| 0 <= j < i ==> #[trigger] entry_fault(es[j]) is None,
        decreases items.len() - i,
    {
        let (lang, word, count) = (items[i].0, &items[i].1, items[i].2);
        assert(es[i as int] == (lang, word@, count)) by {
            assert(items@.map_values(|t: (Lang, String, u32)| (t.0, t.1@, t.2))[i as int] == (
                items@[i as int].0,
                items@[i as int].1@,
                items@[i as int].2,
            ));
        }
        if count == 0 {
            assert(entry_fault(es[i as int]) == Some(Fault::Zero));
            return Err(UsageError::ZeroCount(string_from(word.as_str())));
        }
        let lower = str_lowercase(word.as_str());
        if !crate::text::chars_eq(
            crate::text::chars_of(lower.as_str()).as_slice(),
            crate::text::chars_of(word.as_str()).as_slice(),
        ) {
            assert(entry_fault(es[i as int]) == Some(Fault::NotLower));
            return Err(UsageError::NotLowercase(string_from(word.as_str())));
        }
        if !contains(word.as_str(), lang) {
            assert(entry_fault(es[i as int]) == Some(Fault::Unknown));
            return Err(UsageError::NotInDictionary(string_from(word.as_str())));
        }
        i = i + 1;
    }
    Ok(usage)
}

/// In-memory counters with the optional canonical and transfer file paths.
pub struct UsageStore {
    usage: WordUsage,
    canonical_path: Option<String>,
    transfer_path: Option<String>,
}

impl UsageStore {
    /// The counters held in memory.
    pub closed spec fn counters(&self) -> WordUsage {
        self.usage
    }

    /// The canonical file, if the store has a config directory.
    pub closed spec fn canonical(&self) -> Option<Seq<char>> {
        match self.canonical_path {
            Some(p) => Some(p@),
            None => None,
        }
    }

    /// The transfer file, if the store has a config directory.
    pub closed spec fn transfer(&self) -> Option<Seq<char>> {
        match self.transfer_path {
            Some(p) => Some(p@),
            None => None,
        }
    }

    /// A store backed by the given files (or none).
    pub fn from_optional_paths(usage: WordUsage, canonical_path: Option<String>, transfer_path: Option<String>) -> (r:
        Self)
        ensures
            r.counters() == usage,
            r.canonical() == match canonical_path {
                Some(p) => Some(p@),
                None => None::<Seq<char>>,
            },
            r.transfer() == match transfer_path {
                Some(p) => Some(p@),
                None => None::<Seq<char>>,
            },
    {
        UsageStore { usage, canonical_path, transfer_path }
    }

    /// An in-memory-only store.
    pub fn memory(usage: WordUsage) -> (r: Self)
        ensures
            r.counters() == usage,
            r.canonical() is None,
            r.transfer() is None,
    {
        UsageStore { usage, canonical_path: None, transfer_path: None }
    }

    /// The counters.
    pub fn usage(&self) -> (r: &WordUsage)
        ensures
            *r == self.counters(),
    {
        &self.usage
    }

    /// The canonical file to save to after a change, if any.
    pub fn canonical_path(&self) -> (r: Option<&String>)
        ensures
            match r {
                Some(p) => self.canonical() == Some(p@),
                None => self.canonical() is None,
            },
    {
        match &self.canonical_path {
            Some(p) => Some(p),
            None => None,
        }
    }

    /// Count one accepted word in memory and return its new count; the
    /// application then saves to [`UsageStore::canonical_path`] (memory
    /// stays updated if saving fails).
    pub fn record_accept(&mut self, word: &str, lang: Lang) -> (r: u32)
        requires
            old(self).counters().wf(),
        ensures
            final(self).counters().wf(),
            r == if has_word(old(self).counters().entries(lang), word@) {
                saturating_inc(word_count(old(self).counters().entries(lang), word@))
            } else {
                1
            },
            word_count(final(self).counters().entries(lang), word@) == r,
            forall|v: Seq<char>|
                v != word@ ==> (#[trigger] has_word(final(self).counters().entries(lang), v) == has_word(
                    old(self).counters().entries(lang),
                    v,
                ) && word_count(final(self).counters().entries(lang), v) == word_count(
                    old(self).counters().entries(lang),
                    v,
                )),
            final(self).counters().entries(lang.opposite()) == old(self).counters().entries(lang.opposite()),
            final(self).canonical() == old(self).canonical(),
            final(self).transfer() == old(self).transfer(),
    {
        self.usage.increment(word, lang)
    }

    /// The transfer file an export overwrites with the current counters.
    pub fn export_path(&self) -> (r: Result<String, UsageError>)
        ensures
            match r {
                Ok(p) => self.transfer() == Some(p@),
                Err(e) => self.transfer() is None && e == UsageError::Unavailable,
            },
    {
        match &self.transfer_path {
            Some(p) => Ok(string_from(p.as_str())),
            None => Err(UsageError::Unavailable),
        }
    }

    /// The transfer file to import from and the canonical file to save the
    /// merged counters to.
    pub fn import_paths(&self) -> (r: Result<(String, String), UsageError>)
        ensures
            match r {
                Ok((t, c)) => self.transfer() == Some(t@) && self.canonical() == Some(c@),
                Err(e) => (self.transfer() is None || self.canonical() is None) && e == UsageError::Unavailable,
            },
    {
        let t = match &self.transfer_path {
            Some(p) => string_from(p.as_str()),
            None => {
                return Err(UsageError::Unavailable);
            },
        };
        let c = match &self.canonical_path {
            Some(p) => string_from(p.as_str()),
            None => {
                return Err(UsageError::Unavailable);
            },
        };
        Ok((t, c))
    }

    /// The counters after max-merging `imported`, and how many counters the
    /// merge raised; memory is left as it is until the merged counters are
    /// saved and installed with [`UsageStore::replace`].
    pub fn merged_with(&self, imported: &WordUsage) -> (r: (WordUsage, usize))
        requires
            self.counters().wf(),
            imported.wf(),
            imported.entries(Lang::En).len() + imported.entries(Lang::Ru).len() <= usize::MAX,
        ensures
            r.0.wf(),
            r.1 == count_raises(self.counters().entries(Lang::En), imported.entries(Lang::En)) + count_raises(
                self.counters().entries(Lang::Ru),
                imported.entries(Lang::Ru),
            ),
            forall|lang: Lang, v: Seq<char>|
                #[trigger] has_word(r.0.entries(lang), v) == merged_has(
                    self.counters().entries(lang),
                    imported.entries(lang),
                    v,
                ) && word_count(r.0.entries(lang), v) == merged_count(
                    self.counters().entries(lang),
                    imported.entries(lang),
                    v,
                ),
    {
        let mut merged = self.usage.duplicate();
        let changed = merged.merge_max(imported);
        (merged, changed)
    }

    /// Install counters (after they were saved).
    pub fn replace(&mut self, usage: WordUsage)
        ensures
            final(self).counters() == usage,
            final(self).canonical() == old(self).canonical(),
            final(self).transfer() == old(self).transfer(),
    {
        self.usage = usage;
    }
}

} // verus!
