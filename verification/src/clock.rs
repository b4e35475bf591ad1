//! The one place the library reads the wall clock.

use vstd::prelude::*;

verus! {

/// Relies on `chrono::Utc::now` and `DateTime::to_rfc3339`: the current
/// time printed as an RFC 3339 timestamp.  Nothing is assumed about the
/// value beyond its being non-empty.
#[verifier::external_body]
pub fn utc_now_rfc3339() -> (r: String)
    ensures
        r@.len() > 0,
{
    chrono::Utc::now().to_rfc3339()
}

} // verus!
