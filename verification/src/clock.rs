//! The wall clock. Creation timestamps are taken here, once, at insertion.

use vstd::prelude::*;

verus! {

/// Relies on chrono's `Utc::now` and `DateTime::to_rfc3339`: the current UTC
/// wall-clock time, rendered as an RFC 3339 timestamp. The result depends on
/// the clock, so nothing is stated of it.
#[verifier::external_body]
pub(crate) fn now_rfc3339() -> String {
    chrono::Utc::now().to_rfc3339()
}

} // verus!
