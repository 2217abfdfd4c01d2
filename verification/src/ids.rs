//! Identifiers and timestamps drawn from the environment. Both are
//! inherently nondeterministic, so nothing is assumed of their values:
//! every contract that mentions them holds for whatever came back.

use vstd::prelude::*;

verus! {

/// Relies on `uuid::Uuid::new_v4` (rendered with `to_string`): a freshly
/// drawn random identifier; nothing is assumed of its value.
#[verifier::external_body]
pub(crate) fn new_uuid_string() -> String {
    uuid::Uuid::new_v4().to_string()
}

/// Relies on chrono's `Utc::now` (rendered with `to_rfc3339`): the
/// current wall-clock instant; nothing is assumed of its value.
#[verifier::external_body]
pub(crate) fn now_rfc3339() -> String {
    chrono::Utc::now().to_rfc3339()
}

} // verus!
