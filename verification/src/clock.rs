//! Wall-clock time.
use vstd::prelude::*;

verus! {

/// A point in time as seconds since the Unix epoch (UTC) and the
/// nanoseconds within that second.
pub struct Timestamp {
    pub secs: i64,
    pub nanos: u32,
}

/// Reads the current time with `chrono::Utc::now` and takes it apart with
/// `DateTime::timestamp` and `DateTime::timestamp_subsec_nanos`.
///
/// Which time it gives depends on the machine's clock and is not stated.
/// Claimed of every reading: `Utc::now` builds it from the system time's
/// duration since the epoch (whole seconds and `subsec_nanos`), and panics
/// when the clock reads before 1970 or out of chrono's range; so the
/// seconds are not negative and the nanoseconds are below one second.
#[verifier::external_body]
pub(crate) fn utc_now() -> (now: Timestamp)
    ensures
        now.secs >= 0,
        now.nanos < 1_000_000_000,
{
    let now = chrono::Utc::now();
    Timestamp { secs: now.timestamp(), nanos: now.timestamp_subsec_nanos() }
}

} // verus!
