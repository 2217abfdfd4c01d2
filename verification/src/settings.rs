//! Application settings: today only the history cap, with its default and
//! the validated update. Reading and writing the settings file is a
//! collaborator's concern.

use vstd::prelude::*;

verus! {

/// The application settings record.
#[derive(Debug)]
pub struct AppSettings {
    pub max_history_count: usize,
}

/// The default history cap.
pub fn default_max_history_count() -> (r: usize)
    ensures
        r == 1000,
{
    1000
}

impl Default for AppSettings {
    /// Fresh settings keep the default history cap.
    fn default() -> (r: AppSettings)
        ensures
            r.max_history_count == 1000,
    {
        AppSettings { max_history_count: 1000 }
    }
}

/// The accepted range of the history cap.
pub open spec fn spec_valid_history_count(count: usize) -> bool {
    1 <= count <= 100000
}

/// Applies a settings update: a requested history cap is accepted exactly
/// when it lies between 1 and 100000; a request outside that range is
/// rejected with the localized message and changes nothing.
pub fn apply_settings_update(settings: AppSettings, max_history_count: Option<usize>) -> (r:
    Result<AppSettings, String>)
    ensures
        match max_history_count {
            None => r == Ok::<AppSettings, String>(settings),
            Some(c) => if spec_valid_history_count(c) {
                r is Ok && r->Ok_0.max_history_count == c
            } else {
                r is Err && r->Err_0@
                    == "\u{6700}\u{5927}\u{5386}\u{53f2}\u{8bb0}\u{5f55}\u{6570}\u{5fc5}\u{987b}\u{5728} 1 \u{5230} 100000 \u{4e4b}\u{95f4}"@
            },
        },
{
    match max_history_count {
        None => Ok(settings),
        Some(count) => {
            if count < 1 || count > 100000 {
                Err(
                    "\u{6700}\u{5927}\u{5386}\u{53f2}\u{8bb0}\u{5f55}\u{6570}\u{5fc5}\u{987b}\u{5728} 1 \u{5230} 100000 \u{4e4b}\u{95f4}".to_owned(),
                )
            } else {
                Ok(AppSettings { max_history_count: count })
            }
        },
    }
}

} // verus!
