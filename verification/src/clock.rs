//! The wall clock, as the records of a domain see it.

use vstd::prelude::*;

verus! {

/// The current time in UTC, written as RFC 3339.
///
/// Calls `chrono::Utc::now` and writes its result with
/// `chrono::DateTime::to_rfc3339`. Nothing is claimed of the text: it differs
/// from call to call. `Utc::now` does not return where the system clock stands
/// before 1970.
#[verifier::external_body]
pub(crate) fn current_timestamp() -> (stamp: String) {
    chrono::Utc::now().to_rfc3339()
}

} // verus!
