//! The wall clock, in whole seconds since the Unix epoch.
use std::time::{Duration, SystemTime, UNIX_EPOCH};
use vstd::prelude::*;

verus! {

/// `std::time::SystemTime`, a reading of the system clock. Nothing is known
/// of what is inside but through the functions below.
#[verifier::external_type_specification]
#[verifier::external_body]
pub struct ExSystemTime(SystemTime);

/// The whole seconds that a duration spans, as `Duration::as_secs` reports
/// them.
pub uninterp spec fn duration_secs(d: Duration) -> u64;

/// `Duration::as_secs`: the number of whole seconds in the duration. The
/// result depends on the duration alone.
pub assume_specification[ Duration::as_secs ](d: &Duration) -> (secs: u64)
    ensures
        secs == duration_secs(*d),
;

/// The duration that `Duration::from_secs` makes of a number of seconds.
pub uninterp spec fn duration_from_secs(secs: u64) -> Duration;

/// `Duration::from_secs`: the duration of that many whole seconds. The
/// result depends on the number alone, and `Duration::as_secs` gives the
/// number back.
pub assume_specification[ Duration::from_secs ](secs: u64) -> (d: Duration)
    ensures
        d == duration_from_secs(secs),
        duration_secs(d) == secs,
;

/// `SystemTime::now`: the reading of the system clock. Nothing is known of
/// the reading in advance.
#[verifier::external_body]
fn clock_reading() -> (now: SystemTime) {
    SystemTime::now()
}

/// How far a time lies after the Unix epoch, as `SystemTime::duration_since`
/// reports it, or `None` for a time before the epoch.
pub uninterp spec fn epoch_offset(time: SystemTime) -> Option<Duration>;

/// `SystemTime::duration_since` against `UNIX_EPOCH`: how far `time` lies
/// after the epoch, or `None` when it lies before it. The result depends on
/// the time alone.
#[verifier::external_body]
pub(crate) fn since_epoch(time: &SystemTime) -> (elapsed: Option<Duration>)
    ensures
        elapsed == epoch_offset(*time),
{
    time.duration_since(UNIX_EPOCH).ok()
}

/// The second, counted from the Unix epoch, in which a time lies. A time
/// before the epoch counts as the epoch itself.
pub open spec fn second_of(time: SystemTime) -> u64 {
    match epoch_offset(time) {
        Some(elapsed) => duration_secs(elapsed),
        None => 0,
    }
}

/// The second, counted from the Unix epoch, in which `time` lies.
pub fn unix_seconds(time: &SystemTime) -> (secs: u64)
    ensures
        secs == second_of(*time),
{
    match since_epoch(time) {
        Some(elapsed) => elapsed.as_secs(),
        None => 0,
    }
}

/// The current time in seconds since the Unix epoch: the second in which
/// a reading of the system clock lies. Which reading that is, the clock
/// decides; a clock that stands before the epoch reads as the epoch.
pub fn get_system_time() -> (now: u64)
    ensures
        exists|reading: SystemTime| now == #[trigger] second_of(reading),
{
    let reading = clock_reading();
    unix_seconds(&reading)
}

} // verus!
