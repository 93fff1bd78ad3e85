//! Last-modified times, kept as instants on the UTC time line.

use vstd::prelude::*;

verus! {

/// An instant in UTC: a Unix timestamp with nanosecond precision.
///
/// The record never holds a local time. Whoever has a time with an offset
/// converts it to UTC first and stores the instant.
#[derive(Debug, Clone, Copy, PartialEq, Eq, Structural)]
pub struct Timestamp {
    /// Whole non-leap seconds since 1970-01-01 00:00:00 UTC.
    pub secs: i64,
    /// Nanoseconds since the last whole second.
    pub nanos: u32,
}

/// Largest distance from the Unix epoch, in seconds, that is handed to chrono:
/// about 253,500 years, well inside the years -262143 to 262142 that its
/// dates cover.
pub const MAX_EPOCH_DISTANCE: i64 = 8_000_000_000_000;

/// One second in nanoseconds.
pub const NANOS_PER_SECOND: u32 = 1_000_000_000;

/// Has chrono build the UTC date-time that lies `secs` seconds and `nsecs`
/// nanoseconds after the Unix epoch, with `NaiveDateTime::from_timestamp` and
/// `DateTime::from_utc`, and reads the instant back with `timestamp` and
/// `timestamp_subsec_nanos`.
///
/// Trusted: chrono documents the two directions as a round trip, so the
/// instant read back is the one put in. `from_timestamp` panics on seconds
/// beyond its calendar and on two seconds or more of nanoseconds; the
/// precondition stays clear of both.
#[verifier::external_body]
#[allow(deprecated)]
fn utc_instant(secs: i64, nsecs: u32) -> (instant: (i64, u32))
    requires
        -MAX_EPOCH_DISTANCE <= secs <= MAX_EPOCH_DISTANCE,
        nsecs < NANOS_PER_SECOND,
    ensures
        instant.0 == secs,
        instant.1 == nsecs,
{
    let naive = chrono::NaiveDateTime::from_timestamp(secs, nsecs);
    let utc = chrono::DateTime::<chrono::Utc>::from_utc(naive, chrono::Utc);
    (utc.timestamp(), utc.timestamp_subsec_nanos())
}

impl Timestamp {
    /// The Unix epoch, 1970-01-01 00:00:00 UTC.
    pub open spec fn epoch() -> Timestamp {
        Timestamp { secs: 0, nanos: 0 }
    }

    /// Returns the Unix epoch, the time of an entry whose time was never set.
    pub fn unix_epoch() -> (t: Timestamp)
        ensures
            t == Timestamp::epoch(),
    {
        let (secs, nanos) = utc_instant(0, 0);
        Timestamp { secs, nanos }
    }
}

} // verus!
