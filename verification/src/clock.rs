//! Points in time.

use vstd::prelude::*;

verus! {

/// A point in time, counted from the start of 1970 in UTC.
#[derive(Debug, Clone, Copy, PartialEq, Eq, Structural)]
pub struct Timestamp {
    /// Whole seconds.
    pub seconds: i64,
    /// Nanoseconds beyond them.
    pub nanoseconds: u32,
}

impl Timestamp {
    /// Whether this can be a reading of the clock: not before 1970, and less than a second beyond
    /// the whole seconds.
    pub open spec fn is_reading(self) -> bool {
        &&& 0 <= self.seconds
        &&& self.nanoseconds < 1_000_000_000
    }
}

/// Reads the clock with `chrono::Utc::now`, which counts from 1970 and fails on a clock set before
/// it. The reading differs from call to call, so only its range is stated.
#[verifier::external_body]
pub(crate) fn utc_now() -> (now: Timestamp)
    ensures
        now.is_reading(),
{
    let now = chrono::Utc::now();
    Timestamp { seconds: now.timestamp(), nanoseconds: now.timestamp_subsec_nanos() }
}

} // verus!
