//! Canonical hotkey names shared by the backends' key maps.

use vstd::prelude::*;

use crate::keycode::PhysKey;
use crate::layout::{en_glyph, key_to_char, Lang};
use crate::text::{ascii_alpha, ascii_upper, is_ascii_alpha, string_of_char, to_ascii_upper};

verus! {

/// The hotkey name of a letter key: its English glyph uppercased, for keys
/// whose English glyph is a letter.
pub open spec fn letter_key_name(k: PhysKey) -> Option<Seq<char>> {
    if ascii_alpha(en_glyph(k)) {
        Some(seq![ascii_upper(en_glyph(k))])
    } else {
        None
    }
}

/// The hotkey name of a letter key, layout-independently.
pub fn letter_name(k: PhysKey) -> (r: Option<String>)
    ensures
        match r {
            Some(s) => letter_key_name(k) == Some(s@),
            None => letter_key_name(k) is None,
        },
{
    match key_to_char(k, Lang::En) {
        Some(c) => {
            if is_ascii_alpha(c) {
                Some(string_of_char(to_ascii_upper(c)))
            } else {
                None
            }
        },
        None => None,
    }
}

/// The name of function key number `n` (F1 to F16).
pub open spec fn f_key_name(n: u32) -> Option<Seq<char>> {
    if n == 1 {
        Some(seq!['F', '1'])
    }     else if n == 2 {
        Some(seq!['F', '2'])
    }     else if n == 3 {
        Some(seq!['F', '3'])
    }     else if n == 4 {
        Some(seq!['F', '4'])
    }     else if n == 5 {
        Some(seq!['F', '5'])
    }     else if n == 6 {
        Some(seq!['F', '6'])
    }     else if n == 7 {
        Some(seq!['F', '7'])
    }     else if n == 8 {
        Some(seq!['F', '8'])
    }     else if n == 9 {
        Some(seq!['F', '9'])
    }     else if n == 10 {
        Some(seq!['F', '1', '0'])
    }     else if n == 11 {
        Some(seq!['F', '1', '1'])
    }     else if n == 12 {
        Some(seq!['F', '1', '2'])
    }     else if n == 13 {
        Some(seq!['F', '1', '3'])
    }     else if n == 14 {
        Some(seq!['F', '1', '4'])
    }     else if n == 15 {
        Some(seq!['F', '1', '5'])
    }     else if n == 16 {
        Some(seq!['F', '1', '6'])
    } else {
        None
    }
}

/// The name of function key number `n`, if it is one of F1 to F16.
pub fn f_name(n: u32) -> (r: Option<&'static str>)
    ensures
        match r {
            Some(s) => f_key_name(n) == Some(s@),
            None => f_key_name(n) is None,
        },
{
    if n == 1 {
        proof {
            reveal_strlit("F1");
        }
        Some("F1")
    }     else if n == 2 {
        proof {
            reveal_strlit("F2");
        }
        Some("F2")
    }     else if n == 3 {
        proof {
            reveal_strlit("F3");
        }
        Some("F3")
    }     else if n == 4 {
        proof {
            reveal_strlit("F4");
        }
        Some("F4")
    }     else if n == 5 {
        proof {
            reveal_strlit("F5");
        }
        Some("F5")
    }     else if n == 6 {
        proof {
            reveal_strlit("F6");
        }
        Some("F6")
    }     else if n == 7 {
        proof {
            reveal_strlit("F7");
        }
        Some("F7")
    }     else if n == 8 {
        proof {
            reveal_strlit("F8");
        }
        Some("F8")
    }     else if n == 9 {
        proof {
            reveal_strlit("F9");
        }
        Some("F9")
    }     else if n == 10 {
        proof {
            reveal_strlit("F10");
        }
        Some("F10")
    }     else if n == 11 {
        proof {
            reveal_strlit("F11");
        }
        Some("F11")
    }     else if n == 12 {
        proof {
            reveal_strlit("F12");
        }
        Some("F12")
    }     else if n == 13 {
        proof {
            reveal_strlit("F13");
        }
        Some("F13")
    }     else if n == 14 {
        proof {
            reveal_strlit("F14");
        }
        Some("F14")
    }     else if n == 15 {
        proof {
            reveal_strlit("F15");
        }
        Some("F15")
    }     else if n == 16 {
        proof {
            reveal_strlit("F16");
        }
        Some("F16")
    } else {
        None
    }
}

/// Function keys are named by their number: `F` and the decimal digits of
/// `n` for F1 to F16, and nothing else has such a name.
pub proof fn law_f_key_names(n: u32)
    ensures
        1 <= n <= 9 ==> f_key_name(n) == Some(seq!['F', (48 + n) as char]),
        10 <= n <= 16 ==> f_key_name(n) == Some(seq!['F', '1', (38 + n) as char]),
        n == 0 || n > 16 ==> f_key_name(n) is None,
{
    if n == 1 { assert((48 + n) as char == '1'); }
    else if n == 2 { assert((48 + n) as char == '2'); }
    else if n == 3 { assert((48 + n) as char == '3'); }
    else if n == 4 { assert((48 + n) as char == '4'); }
    else if n == 5 { assert((48 + n) as char == '5'); }
    else if n == 6 { assert((48 + n) as char == '6'); }
    else if n == 7 { assert((48 + n) as char == '7'); }
    else if n == 8 { assert((48 + n) as char == '8'); }
    else if n == 9 { assert((48 + n) as char == '9'); }
    else if n == 10 { assert((38 + n) as char == '0'); }
    else if n == 11 { assert((38 + n) as char == '1'); }
    else if n == 12 { assert((38 + n) as char == '2'); }
    else if n == 13 { assert((38 + n) as char == '3'); }
    else if n == 14 { assert((38 + n) as char == '4'); }
    else if n == 15 { assert((38 + n) as char == '5'); }
    else if n == 16 { assert((38 + n) as char == '6'); }
}

} // verus!
