use vstd::prelude::*;

verus! {

/// A point in time in UTC: whole seconds since the Unix epoch and the nanoseconds past that
/// second.
#[derive(Debug, Clone, Copy, PartialEq, Eq, Structural)]
pub struct UtcTime {
    pub secs: i64,
    pub nanos: u32,
}

impl UtcTime {
    /// Whether the nanoseconds lie below one second, or below two for a leap second.
    pub open spec fn well_formed(self) -> bool {
        self.nanos < 2_000_000_000
    }
}

/// Calls `chrono::Utc::now` and takes the result apart into `timestamp` and
/// `timestamp_subsec_nanos`. The current time depends on the clock, so the contract only
/// states what `now` always builds: a time from the system clock, which has no leap second,
/// so the nanoseconds lie below one second.
#[verifier::external_body]
pub(crate) fn utc_now() -> (r: UtcTime)
    ensures
        r.nanos < 1_000_000_000,
{
    let now = chrono::Utc::now();
    UtcTime { secs: now.timestamp(), nanos: now.timestamp_subsec_nanos() }
}

} // verus!
