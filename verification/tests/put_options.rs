use cuttlestore::PutOptions;
use std::time::{Duration, SystemTime, UNIX_EPOCH};

#[test]
fn seconds_are_seconds() {
    assert_eq!(
        PutOptions::ttl_secs(32),
        PutOptions::ttl(Duration::from_secs(32))
    )
}

#[test]
fn ttl_drops_fractions_of_a_second() {
    assert_eq!(PutOptions::ttl(Duration::from_millis(2999)).ttl, Some(2));
    assert_eq!(PutOptions::ttl(Duration::from_millis(999)).ttl, Some(0));
}

#[test]
fn default_has_no_ttl() {
    assert_eq!(PutOptions::default().ttl, None);
}

#[test]
fn until_is_the_distance_to_the_target() {
    assert_eq!(PutOptions::until(1_000, 400).ttl, Some(600));
    assert_eq!(PutOptions::until(1_000, 1_000).ttl, Some(0));
}

#[test]
fn until_a_past_second_is_zero() {
    assert_eq!(PutOptions::until(400, 1_000).ttl, Some(0));
    assert_eq!(PutOptions::until(0, u64::MAX).ttl, Some(0));
}

#[test]
fn live_until_a_minute_from_now() {
    let options = PutOptions::live_until(SystemTime::now() + Duration::from_secs(60));
    let ttl = options.ttl.unwrap();
    assert!(ttl == 59 || ttl == 60 || ttl == 61);
}

#[test]
fn live_until_the_past_is_zero() {
    assert_eq!(PutOptions::live_until(UNIX_EPOCH + Duration::from_secs(5)).ttl, Some(0));
    assert_eq!(PutOptions::live_until(UNIX_EPOCH).ttl, Some(0));
}

#[test]
fn a_time_before_the_epoch_is_refused() {
    assert_eq!(PutOptions::try_live_until(UNIX_EPOCH - Duration::from_secs(1)), None);
    assert_eq!(PutOptions::try_live_until(UNIX_EPOCH - Duration::from_secs(86_400)), None);
}

#[test]
fn try_live_until_takes_every_time_since_the_epoch() {
    assert_eq!(PutOptions::try_live_until(UNIX_EPOCH), Some(PutOptions::ttl_secs(0)));
    let options = PutOptions::try_live_until(SystemTime::now() + Duration::from_secs(60)).unwrap();
    let ttl = options.ttl.unwrap();
    assert!(ttl == 59 || ttl == 60 || ttl == 61);
}

#[test]
fn the_clock_is_past_the_year_2020() {
    assert!(cuttlestore::common::get_system_time() > 1_577_836_800);
}
