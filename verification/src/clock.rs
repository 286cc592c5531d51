//! The single wall-clock reading the message-to-statement transcoder needs
//! for the creation timestamp it stamps into the document header.

use vstd::prelude::*;

verus! {

/// Relies on chrono's `Utc::now`: reads the current UTC wall-clock time and
/// renders it as a combined date-time literal (`YYYY-MM-DDThh:mm:ss`).
/// Nothing is promised of the value read; callers state what holds whatever
/// time comes back.
#[verifier::external_body]
pub(crate) fn now_timestamp() -> (r: String) {
    chrono::Utc::now().format("%Y-%m-%dT%H:%M:%S").to_string()
}

} // verus!
