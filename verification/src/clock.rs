//! Wall-clock time in milliseconds since the Unix epoch.

use vstd::prelude::*;

verus! {

/// `SystemTime::elapsed` of the Unix epoch, in nanoseconds: how far the machine's clock stands
/// past the epoch, or `None` where it stands before it. The reading depends on the machine, so
/// nothing is promised of it.
#[verifier::external_body]
fn nanos_since_epoch() -> (reading: Option<u128>) {
    match std::time::UNIX_EPOCH.elapsed() {
        Ok(d) => Some(d.as_nanos()),
        Err(_) => None,
    }
}

/// The whole milliseconds in `nanos` nanoseconds, as a 64-bit timestamp.
pub fn millis_from_nanos(nanos: u128) -> (ms: i64)
    ensures
        ms == (nanos / 1_000_000) as i64,
        nanos / 1_000_000 <= i64::MAX ==> ms == nanos / 1_000_000,
{
    (nanos / 1_000_000) as i64
}

/// The time that a reading of the clock in nanoseconds gives: its whole milliseconds, and none for
/// a clock that stands before the epoch.
pub open spec fn time_of(reading: Option<u128>) -> Option<i64> {
    match reading {
        Some(nanos) => Some((nanos / 1_000_000) as i64),
        None => None,
    }
}

/// The time in milliseconds since the Unix epoch for a reading of the clock in nanoseconds, where
/// `None` stands for a clock before the epoch.
pub fn time_from_reading(reading: Option<u128>) -> (time: Option<i64>)
    ensures
        time == time_of(reading),
{
    match reading {
        Some(nanos) => Some(millis_from_nanos(nanos)),
        None => None,
    }
}

/// The current time in milliseconds since the Unix epoch, or `None` where the machine's clock
/// stands before the epoch. What the clock reads depends on the machine; what is made of a reading
/// is what `time_from_reading` makes of it.
pub fn now_ms() -> (now: Option<i64>)
    ensures
        exists|reading: Option<u128>| now == #[trigger] time_of(reading),
{
    time_from_reading(nanos_since_epoch())
}

} // verus!
