//! Decisions of the diagnostic file log: which directory it goes to and when
//! the current file is rotated. Opening, writing and renaming the files is
//! the application's business.

use vstd::prelude::*;

use crate::text::{chars_of, string_from, trim, trimmed};

verus! {

/// A log file larger than this (4 MiB) is rotated before it is appended to.
pub const MAX_LOG_BYTES: u64 = 4194304;

/// Whether a log file of `len` bytes is rotated to `mxks.log.1` (replacing
/// an older rotation) before logging continues in a fresh file.
pub fn needs_rotation(len: u64) -> (r: bool)
    ensures
        r == (len > 4 * 1024 * 1024),
{
    len > MAX_LOG_BYTES
}

/// The log directory the configuration chooses: `None` (the platform
/// default) when the configured folder is blank, else the configured folder
/// as written.
pub fn log_dir_choice(configured: &str) -> (r: Option<String>)
    ensures
        r is None <==> trim(configured@).len() == 0,
        r matches Some(p) ==> p@ == configured@,
{
    let chars = chars_of(configured);
    let t = trimmed(chars.as_slice());
    if t.len() == 0 {
        None
    } else {
        Some(string_from(configured))
    }
}

} // verus!
