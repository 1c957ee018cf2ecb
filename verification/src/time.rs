//! Points in time, as the entities record them.
use vstd::prelude::*;

verus! {

/// A point in time in UTC: whole seconds since the Unix epoch, and the
/// nanoseconds past that second (above 999,999,999 only within a leap second).
#[derive(Clone, Copy, Debug, PartialEq, Eq, Structural)]
pub struct Timestamp {
    pub secs: i64,
    pub nanos: u32,
}

/// `t` is a reading of the system clock: not before the Unix epoch, and
/// less than a second of nanoseconds past its second.
pub open spec fn is_clock_reading(t: Timestamp) -> bool {
    t.secs >= 0 && t.nanos < 1_000_000_000
}

/// The current time, from `chrono::Utc::now`, taken apart into seconds and
/// nanoseconds. That call measures the system clock's distance from the Unix
/// epoch, so the seconds are not negative and the nanoseconds stay below one
/// second (no leap second). Which time it is, is the clock's and not stated.
#[verifier::external_body]
pub(crate) fn utc_now() -> (now: Timestamp)
    ensures
        is_clock_reading(now),
{
    let now = chrono::Utc::now();
    Timestamp { secs: now.timestamp(), nanos: now.timestamp_subsec_nanos() }
}

} // verus!
