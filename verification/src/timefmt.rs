//! Calendar rendering of capture timestamps, delegated to chrono.

use vstd::prelude::*;

verus! {

/// Exclusive upper bound on displayable timestamps: the first second of
/// year 10000 UTC. Below it the rendered year always has four digits.
pub const TIMESTAMP_LIMIT: i64 = 253402300800;

/// The calendar rendering, `%Y-%m-%d %H:%M:%S` in UTC, of a count of
/// seconds since the epoch.
pub uninterp spec fn spec_utc_datetime_str(secs: int) -> Seq<char>;

/// Relies on chrono's `DateTime::from_timestamp` (total within the given
/// bounds) and `DateTime::format`: the rendered calendar form of a second
/// count depends on that count alone.
#[verifier::external_body]
pub fn utc_datetime_string(secs: i64) -> (r: String)
    requires
        0 <= secs < TIMESTAMP_LIMIT,
    ensures
        r@ == spec_utc_datetime_str(secs as int),
{
    chrono::DateTime::<chrono::Utc>::from_timestamp(secs, 0).unwrap().format(
        "%Y-%m-%d %H:%M:%S",
    ).to_string()
}

} // verus!
