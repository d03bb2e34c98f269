use vstd::prelude::*;

verus! {

/// A point in time on the UTC time line: whole seconds since
/// 1970-01-01 00:00:00 UTC, and the nanoseconds since that second began.
#[derive(Debug, Clone, Copy, PartialEq, Eq, Structural)]
pub struct Timestamp {
    pub secs: i64,
    pub nanos: u32,
}

impl Timestamp {
    /// What every reading of the system clock satisfies: it lies at or after
    /// the epoch, and its nanoseconds stay below one second.
    pub open spec fn is_clock_reading(self) -> bool {
        self.secs >= 0 && self.nanos < 1_000_000_000
    }
}

/// Reads the system clock through `chrono::Utc::now` and hands the reading out
/// as seconds (`DateTime::timestamp`) and nanoseconds
/// (`DateTime::timestamp_subsec_nanos`).
///
/// Trusted: `Utc::now` builds its value from the time elapsed since the epoch,
/// so the seconds are not negative and the nanoseconds are those of a
/// `std::time::Duration`, below one second. Which instant comes back is not
/// claimed.
#[verifier::external_body]
pub(crate) fn now() -> (t: Timestamp)
    ensures
        t.is_clock_reading(),
{
    let reading = chrono::Utc::now();
    Timestamp { secs: reading.timestamp(), nanos: reading.timestamp_subsec_nanos() }
}

} // verus!
