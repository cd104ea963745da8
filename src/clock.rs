//! The current time, as the timestamp of an entry that brings none.
use vstd::prelude::*;

verus! {

/// Relies on chrono's `Utc::now` and `DateTime::to_rfc3339`: the current UTC
/// time written as RFC 3339 text, which always holds at least a date.
#[verifier::external_body]
pub(crate) fn now_rfc3339() -> (r: String)
    ensures
        r@.len() > 0,
{
    chrono::Utc::now().to_rfc3339()
}

} // verus!
