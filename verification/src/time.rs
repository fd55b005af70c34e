//! Instants in UTC and the range of Unix timestamps that chrono can represent.

use vstd::prelude::*;

verus! {

/// Smallest Unix timestamp (in seconds) that `chrono::DateTime<Utc>` can hold:
/// the first second of the year -262143.
pub const MIN_UTC_TIMESTAMP: i64 = -8334601228800i64;

/// Largest Unix timestamp (in seconds) that `chrono::DateTime<Utc>` can hold:
/// the last second of the year 262142.
pub const MAX_UTC_TIMESTAMP: i64 = 8210266876799i64;

/// Whether a Unix timestamp in seconds names a representable UTC instant.
pub open spec fn representable_timestamp(secs: int) -> bool {
    MIN_UTC_TIMESTAMP <= secs <= MAX_UTC_TIMESTAMP
}

/// An instant in UTC: whole seconds since the Unix epoch and the nanoseconds
/// that follow them.
#[derive(Clone, Copy, Debug, PartialEq, Eq, Structural)]
pub struct UtcTime {
    pub secs: i64,
    pub nanos: u32,
}

/// Nanoseconds in one second.
pub const NANOS_PER_SEC: u32 = 1_000_000_000u32;

impl UtcTime {
    /// The nanosecond part stays below one second (no leap-second encoding).
    pub open spec fn wf(self) -> bool {
        self.nanos < NANOS_PER_SEC
    }

    /// The instant as a count of nanoseconds since the Unix epoch.
    pub open spec fn total_nanos(self) -> int {
        self.secs * 1_000_000_000 + self.nanos
    }

    /// The signed time from `earlier` to `self` in nanoseconds, as
    /// `DateTime::signed_duration_since` measures it.
    pub fn nanos_since(self, earlier: UtcTime) -> (d: i128)
        ensures
            d == self.total_nanos() - earlier.total_nanos(),
    {
        let secs: i128 = self.secs as i128 - earlier.secs as i128;
        assert(-0x1_0000_0000_0000_0000 < secs < 0x1_0000_0000_0000_0000);
        assert(secs * 1_000_000_000 < 0x1_0000_0000_0000_0000 * 1_000_000_000) by (nonlinear_arith)
            requires secs < 0x1_0000_0000_0000_0000;
        assert(secs * 1_000_000_000 > -0x1_0000_0000_0000_0000 * 1_000_000_000) by (nonlinear_arith)
            requires secs > -0x1_0000_0000_0000_0000;
        secs * 1_000_000_000 + (self.nanos as i128 - earlier.nanos as i128)
    }
}

/// Builds a `chrono::DateTime<Utc>` from a Unix timestamp with
/// `DateTime::from_timestamp_secs` and reads the timestamp back from it.
/// Trusted: chrono returns `Some` exactly for the seconds between the first
/// second of year -262143 and the last second of year 262142 (its day count
/// must fall in `NaiveDate`'s year range), and documents that the value
/// round-trips through `timestamp()`.
#[verifier::external_body]
pub(crate) fn datetime_from_timestamp_secs(secs: i64) -> (res: Option<i64>)
    ensures
        res == (if representable_timestamp(secs as int) { Some(secs) } else { None::<i64> }),
{
    match chrono::DateTime::from_timestamp_secs(secs) {
        Some(dt) => Some(dt.timestamp()),
        None => None,
    }
}

/// Seconds in one day.
pub const SECS_PER_DAY: i64 = 86_400i64;

/// The instant one day (of 86,400 seconds, as every UTC day is) before `now`,
/// when chrono can represent it.
pub open spec fn day_before(now: UtcTime) -> Option<UtcTime> {
    if representable_timestamp(now.secs - SECS_PER_DAY) {
        Some(UtcTime { secs: (now.secs - SECS_PER_DAY) as i64, nanos: now.nanos })
    } else {
        None
    }
}

/// The start of the day that ends at `now`: the same time of day one day
/// earlier, checked with chrono; `None` when that instant is out of range.
pub fn past_day_start(now: UtcTime) -> (res: Option<UtcTime>)
    ensures
        res == day_before(now),
        res is Some <==> MIN_UTC_TIMESTAMP <= now.secs - 86_400 <= MAX_UTC_TIMESTAMP,
        res matches Some(t) ==> t.secs == now.secs - 86_400 && t.nanos == now.nanos,
{
    if now.secs < i64::MIN + SECS_PER_DAY {
        return None;
    }
    match datetime_from_timestamp_secs(now.secs - SECS_PER_DAY) {
        Some(secs) => Some(UtcTime { secs, nanos: now.nanos }),
        None => None,
    }
}

} // verus!
