//! Wall-clock timestamps for session and result records. The clock is
//! ambient state, so no two readings are related by contract: everything
//! the library proves about a session holds whatever the clock returned.

use vstd::prelude::*;

verus! {

/// Relies on `chrono::Utc::now` and `DateTime::format`: the current UTC
/// time rendered as `YYYY-MM-DD HH:MM:SS UTC`. The value depends on the
/// clock, so nothing is promised beyond it being non-empty.
#[verifier::external_body]
pub fn current_time_string() -> (r: String)
    ensures
        r@.len() > 0,
{
    chrono::Utc::now().format("%Y-%m-%d %H:%M:%S UTC").to_string()
}

} // verus!
