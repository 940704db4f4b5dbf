//! The current time, as whole seconds since the Unix epoch (UTC).
use vstd::prelude::*;

verus! {

/// Bound on the distance from the epoch of any instant the clock reports:
/// chrono keeps dates within years -262143 to 262142, which lie less than
/// 8.4e12 seconds either side of the epoch.
pub const MAX_TIMESTAMP: i64 = 8_400_000_000_000;

/// Relies on chrono::Utc::now and DateTime::timestamp: `now` unwraps
/// `DateTime::from_timestamp`, which refuses seconds outside chrono's
/// date range, so what comes back lies within it.
#[verifier::external_body]
pub(crate) fn now_timestamp() -> (r: i64)
    ensures
        -MAX_TIMESTAMP <= r <= MAX_TIMESTAMP,
{
    chrono::Utc::now().timestamp()
}

} // verus!
