//! Which XKB layout group is English and which Russian, decided from the
//! keysyms the probe key (the key that types `A`) produces in each group, so
//! that group *names* do not matter.

use vstd::prelude::*;

use crate::layout::Lang;

verus! {

/// A Latin letter keysym.
pub open spec fn latin(sym: u32) -> bool {
    (0x61 <= sym && sym <= 0x7a) || (0x41 <= sym && sym <= 0x5a)
}

/// A Cyrillic keysym: the legacy X range or the Unicode-mapped range.
pub open spec fn cyrillic(sym: u32) -> bool {
    (0x6a0 <= sym && sym <= 0x6ff) || (0x0100_0400 <= sym && sym <= 0x0100_04ff)
}

/// Whether a keysym is a Latin letter.
pub fn is_latin(sym: u32) -> (r: bool)
    ensures
        r == latin(sym),
{
    (0x61 <= sym && sym <= 0x7a) || (0x41 <= sym && sym <= 0x5a)
}

/// Whether a keysym is Cyrillic.
pub fn is_cyrillic(sym: u32) -> (r: bool)
    ensures
        r == cyrillic(sym),
{
    (0x6a0 <= sym && sym <= 0x6ff) || (0x0100_0400 <= sym && sym <= 0x0100_04ff)
}

/// Number of groups to inspect for `per` keysyms per keycode: groups occupy
/// level pairs, and XKB has at most four.
pub open spec fn group_count(per: u8) -> nat {
    let g = (per as nat + 1) / 2;
    if g > 4 {
        4
    } else {
        g
    }
}

/// The first group `g' >= g` below `groups` whose base-level keysym exists
/// in `syms` and satisfies `latin` (when `want_latin`) or `cyrillic`.
pub open spec fn first_group(syms: Seq<u32>, groups: nat, g: nat, want_latin: bool) -> Option<u8>
    decreases groups - g,
{
    if g >= groups {
        None
    } else if 2 * g < syms.len() && (if want_latin {
        latin(syms[2 * g as int])
    } else {
        cyrillic(syms[2 * g as int])
    }) {
        Some(g as u8)
    } else {
        first_group(syms, groups, g + 1, want_latin)
    }
}

/// A group found by [`first_group`] has a base keysym of the wanted kind.
proof fn lemma_first_group_holds(syms: Seq<u32>, groups: nat, g: nat, want_latin: bool)
    requires
        groups <= 4,
    ensures
        first_group(syms, groups, g, want_latin) matches Some(f) ==> {
            &&& 2 * f < syms.len()
            &&& if want_latin {
                latin(syms[2 * f as int])
            } else {
                cyrillic(syms[2 * f as int])
            }
        },
    decreases groups - g,
{
    if g < groups {
        lemma_first_group_holds(syms, groups, g + 1, want_latin);
    }
}

/// The XKB groups that hold the English and the Russian layout.
#[derive(Clone, Copy, Debug, PartialEq, Eq, Structural)]
pub struct XkbGroups {
    pub en_group: Option<u8>,
    pub ru_group: Option<u8>,
}

impl XkbGroups {
    /// Classify the groups from the probe key's keyboard mapping: `per`
    /// keysyms per keycode, `syms` the probe key's keysyms. The first group
    /// with a Latin base keysym is English, the first with a Cyrillic one is
    /// Russian.
    pub fn detect(per: u8, syms: &[u32]) -> (r: XkbGroups)
        ensures
            r.en_group == first_group(syms@, group_count(per), 0, true),
            r.ru_group == first_group(syms@, group_count(per), 0, false),
            r.en_group is Some && r.ru_group is Some ==> r.en_group != r.ru_group,
    {
        let half: usize = (per as usize + 1) / 2;
        let groups: usize = if half > 4 {
            4
        } else {
            half
        };
        let mut en: Option<u8> = None;
        let mut ru: Option<u8> = None;
        let mut g: usize = 0;
        while g < groups
            invariant
                groups == group_count(per),
                groups <= 4,
                g <= groups,
                first_group(syms@, groups as nat, 0, true) == match en {
                    Some(e) => Some(e),
                    None => first_group(syms@, groups as nat, g as nat, true),
                },
                first_group(syms@, groups as nat, 0, false) == match ru {
                    Some(e) => Some(e),
                    None => first_group(syms@, groups as nat, g as nat, false),
                },
            decreases groups - g,
        {
            let idx = g * 2;
            if idx < syms.len() {
                let sym = syms[idx];
                if en.is_none() && is_latin(sym) {
                    en = Some(g as u8);
                }
                if ru.is_none() && is_cyrillic(sym) {
                    ru = Some(g as u8);
                }
            }
            g = g + 1;
        }
        proof {
            lemma_first_group_holds(syms@, groups as nat, 0, true);
            lemma_first_group_holds(syms@, groups as nat, 0, false);
        }
        XkbGroups { en_group: en, ru_group: ru }
    }

    /// The layout held by group `g`, if it is one of the two.
    pub fn lang_of_group(&self, g: u8) -> (r: Option<Lang>)
        ensures
            r == (if self.en_group == Some(g) {
                Some(Lang::En)
            } else if self.ru_group == Some(g) {
                Some(Lang::Ru)
            } else {
                None
            }),
    {
        if self.en_group == Some(g) {
            Some(Lang::En)
        } else if self.ru_group == Some(g) {
            Some(Lang::Ru)
        } else {
            None
        }
    }

    /// The group holding `lang`, if known.
    pub fn group_of_lang(&self, lang: Lang) -> (r: Option<u8>)
        ensures
            r == match lang {
                Lang::En => self.en_group,
                Lang::Ru => self.ru_group,
            },
    {
        match lang {
            Lang::En => self.en_group,
            Lang::Ru => self.ru_group,
        }
    }
}

/// Switching to a layout and reading the layout back agree: the group chosen
/// for `lang` reads back as `lang`, provided the two groups differ.
pub proof fn law_group_round_trip(groups: XkbGroups, lang: Lang)
    requires
        groups.en_group is Some ==> groups.ru_group != groups.en_group,
        (match lang {
            Lang::En => groups.en_group,
            Lang::Ru => groups.ru_group,
        }) is Some,
    ensures
        ({
            let g = (match lang {
                Lang::En => groups.en_group,
                Lang::Ru => groups.ru_group,
            })->0;
            (if groups.en_group == Some(g) {
                Some(Lang::En)
            } else if groups.ru_group == Some(g) {
                Some(Lang::Ru)
            } else {
                None
            }) == Some(lang)
        }),
{
}

} // verus!
