use cuttlestore::backends::filesystem::FilesystemBackend;
use cuttlestore::backends::redis::{RedisBackend, ScanCommand, ScanEvent, ScanState};
use cuttlestore::backends::sqlite::SqliteBackend;
use cuttlestore::common::cleanup::{Cleaner, CleanerAction, CleanerEvent, CleanerOptions};
use cuttlestore::envelope::{ReadPlan, StoredEnvelope};
use cuttlestore::PutOptions;
use std::time::Duration;

fn filesystem() -> FilesystemBackend {
    FilesystemBackend::new("filesystem://./store").unwrap()
}

fn sqlite() -> SqliteBackend {
    SqliteBackend::new("sqlite://./store.db").unwrap()
}

#[test]
fn a_missing_file_is_a_missing_key() {
    assert_eq!(filesystem().on_read(None, 10), ReadPlan { value: None, delete: false, corrupt: false });
}

#[test]
fn a_file_is_read_back_as_it_was_put() {
    let file = filesystem().on_put(b"value", &PutOptions::ttl_secs(4), 10).unwrap();
    assert_ne!(file, b"value".to_vec());
    assert_eq!(
        filesystem().on_read(Some(file.clone()), 14),
        ReadPlan { value: Some(b"value".to_vec()), delete: false, corrupt: false }
    );
    assert_eq!(filesystem().on_read(Some(file), 15), ReadPlan { value: None, delete: true, corrupt: false });
}

#[test]
fn a_file_without_deadline_never_expires() {
    let file = filesystem().on_put(b"value", &PutOptions::default(), 10).unwrap();
    assert_eq!(
        filesystem().on_read(Some(file), u64::MAX),
        ReadPlan { value: Some(b"value".to_vec()), delete: false, corrupt: false }
    );
}

#[test]
fn a_corrupt_file_is_absent_and_deleted() {
    let corrupt = ReadPlan { value: None, delete: true, corrupt: true };
    assert_eq!(filesystem().on_read(Some(vec![1, 2, 3]), 10), corrupt);
    assert_eq!(filesystem().on_read(Some(Vec::new()), 10), corrupt);
    // A file cut short by a crash.
    let mut file = filesystem().on_put(b"value", &PutOptions::ttl_secs(4), 10).unwrap();
    file.truncate(file.len() - 3);
    assert_eq!(filesystem().on_read(Some(file), 10), corrupt);
}

#[test]
fn every_value_can_be_written() {
    assert!(filesystem().on_put(b"", &PutOptions::default(), 0).is_ok());
    assert!(filesystem().on_put(&[0u8; 100_000], &PutOptions::ttl_secs(u64::MAX), u64::MAX).is_ok());
    assert!(StoredEnvelope { payload: vec![0xff; 17], live_until: Some(u64::MAX) }.encode().is_ok());
}

#[test]
fn a_file_from_the_envelope_codec() {
    let envelope = StoredEnvelope { payload: vec![7, 8], live_until: Some(99) };
    let file = envelope.encode().unwrap();
    assert_eq!(filesystem().on_read(Some(file.clone()), 99), ReadPlan { value: Some(vec![7, 8]), delete: false, corrupt: false });
    assert_eq!(filesystem().on_read(Some(file), 100), ReadPlan { value: None, delete: true, corrupt: false });
}

#[test]
fn sqlite_deadline_column() {
    assert_eq!(sqlite().on_put(&PutOptions::default(), 10), None);
    assert_eq!(sqlite().on_put(&PutOptions::ttl_secs(5), 10), Some(15));
    assert_eq!(sqlite().on_put(&PutOptions::ttl_secs(u64::MAX), 10), Some(i64::MAX));
}

#[test]
fn sqlite_rows() {
    let kept = ReadPlan { value: Some(vec![1]), delete: false, corrupt: false };
    let gone = ReadPlan { value: None, delete: true, corrupt: false };
    assert_eq!(sqlite().on_row(vec![1], None, u64::MAX), kept);
    assert_eq!(sqlite().on_row(vec![1], Some(15), 14), kept);
    assert_eq!(sqlite().on_row(vec![1], Some(15), 15), kept);
    assert_eq!(sqlite().on_row(vec![1], Some(15), 16), gone);
    assert_eq!(sqlite().on_row(vec![1], Some(0), 0), kept);
    assert_eq!(sqlite().on_row(vec![1], Some(i64::MAX), u64::MAX), gone);
}

#[test]
fn a_negative_column_lies_before_every_second() {
    let gone = ReadPlan { value: None, delete: true, corrupt: false };
    assert_eq!(sqlite().on_row(vec![1], Some(-1), 0), gone);
    assert_eq!(sqlite().on_row(vec![1], Some(-1), 1), gone);
    assert_eq!(sqlite().on_row(vec![1], Some(i64::MIN), u64::MAX), gone);
}

#[test]
fn sqlite_get() {
    assert_eq!(
        sqlite().on_get(None, 10),
        ReadPlan { value: None, delete: false, corrupt: false }
    );
    assert_eq!(
        sqlite().on_get(Some((vec![7], Some(10))), 10),
        ReadPlan { value: Some(vec![7]), delete: false, corrupt: false }
    );
    assert_eq!(
        sqlite().on_get(Some((vec![7], Some(9))), 10),
        ReadPlan { value: None, delete: true, corrupt: false }
    );
    assert_eq!(
        sqlite().on_get(Some((vec![7], None)), 10),
        ReadPlan { value: Some(vec![7]), delete: false, corrupt: false }
    );
}

#[test]
fn the_cleaner_sleeps_and_sweeps_in_turn() {
    let period = Duration::from_secs(30);
    let (mut cleaner, first) = Cleaner::new(CleanerOptions { sweep_every: period });
    assert!(matches!(first, CleanerAction::Sleep(pause) if pause == period));
    for _ in 0..3 {
        assert!(matches!(cleaner.on(CleanerEvent::Woke), CleanerAction::Scan));
        assert!(matches!(
            cleaner.on(CleanerEvent::Swept),
            CleanerAction::Sleep(pause) if pause == period
        ));
    }
}

#[test]
fn the_cleaner_goes_on_after_a_failed_sweep() {
    let period = Duration::from_secs(30);
    let (mut cleaner, _) = Cleaner::new(CleanerOptions { sweep_every: period });
    assert!(matches!(cleaner.on(CleanerEvent::Woke), CleanerAction::Scan));
    assert!(matches!(
        cleaner.on(CleanerEvent::SweepFailed),
        CleanerAction::ReportAndSleep(pause) if pause == period
    ));
    assert!(matches!(cleaner.on(CleanerEvent::Woke), CleanerAction::Scan));
}

#[test]
fn the_cleaner_passes_over_events_out_of_turn() {
    let period = Duration::from_secs(30);
    let (mut cleaner, _) = Cleaner::new(CleanerOptions { sweep_every: period });
    assert!(matches!(
        cleaner.on(CleanerEvent::Swept),
        CleanerAction::Sleep(pause) if pause == period
    ));
    assert!(matches!(cleaner.on(CleanerEvent::Woke), CleanerAction::Scan));
    assert!(matches!(cleaner.on(CleanerEvent::Woke), CleanerAction::Scan));
}

#[test]
fn a_backend_gets_a_cleaner_only_if_it_needs_one() {
    let options = CleanerOptions { sweep_every: Duration::from_secs(5) };
    assert_eq!(
        options.for_backend(true).unwrap().sweep_every,
        Duration::from_secs(5)
    );
    let options = CleanerOptions { sweep_every: Duration::from_secs(5) };
    assert!(options.for_backend(false).is_none());
}

#[test]
fn the_default_sweep_period_is_ten_minutes() {
    assert_eq!(CleanerOptions::default().sweep_every, Duration::from_secs(600));
}

/// Runs a scan against a server that holds `keys`, of which those of
/// `values` still have a value, and collects what the reader is handed.
fn run_scan(
    keys: Vec<&str>,
    values: Vec<(&str, Result<Vec<u8>, String>)>,
) -> Vec<Result<(String, Vec<u8>), String>> {
    let mut handed = Vec::new();
    let mut state = ScanState::start();
    let mut walk = keys.into_iter();
    let mut opened = false;
    loop {
        let event = match state.command() {
            ScanCommand::Connect => ScanEvent::Connected,
            ScanCommand::Open => {
                opened = true;
                ScanEvent::Opened
            }
            ScanCommand::NextKey => {
                assert!(opened);
                ScanEvent::Key(walk.next().map(|key| key.to_string()))
            }
            ScanCommand::Fetch(key) => match values.iter().find(|(name, _)| *name == key) {
                Some((_, Ok(value))) => ScanEvent::Value(Some(value.clone())),
                Some((_, Err(error))) => ScanEvent::FetchFailed(error.clone()),
                None => ScanEvent::Value(None),
            },
            ScanCommand::Stop => return handed,
        };
        let step = state.step(event);
        if let Some(item) = step.item {
            handed.push(item);
        }
        state = step.next;
    }
}

#[test]
fn a_scan_hands_out_every_pair() {
    let handed = run_scan(
        vec!["a", "b"],
        vec![("a", Ok(vec![1])), ("b", Ok(vec![2]))],
    );
    assert_eq!(
        handed,
        vec![Ok(("a".to_string(), vec![1])), Ok(("b".to_string(), vec![2]))]
    );
}

#[test]
fn a_scan_of_an_empty_server() {
    assert_eq!(run_scan(vec![], vec![]), vec![]);
}

#[test]
fn a_scan_passes_over_vanished_keys_and_goes_on_after_a_failed_fetch() {
    let handed = run_scan(
        vec!["gone", "broken", "there"],
        vec![("broken", Err("timeout".to_string())), ("there", Ok(vec![3]))],
    );
    assert_eq!(
        handed,
        vec![Err("timeout".to_string()), Ok(("there".to_string(), vec![3]))]
    );
}

#[test]
fn a_scan_ends_when_no_connection_can_be_had() {
    let step = ScanState::start().step(ScanEvent::ConnectionFailed("pool closed"));
    assert_eq!(step.item, Some(Err("pool closed")));
    assert!(matches!(step.next, ScanState::Done));
    assert!(matches!(step.next.command(), ScanCommand::Stop));

    let step = ScanState::Borrowing.step(ScanEvent::ConnectionFailed("pool closed"));
    assert_eq!(step.item, Some(Err("pool closed")));
    assert!(matches!(step.next, ScanState::Done));
}

#[test]
fn a_scan_ends_when_the_walk_cannot_be_opened() {
    let step = ScanState::Opening.step(ScanEvent::OpenFailed("denied"));
    assert_eq!(step.item, Some(Err("denied")));
    assert!(matches!(step.next, ScanState::Done));
}

#[test]
fn a_finished_scan_stays_finished() {
    let step = ScanState::Done.step(ScanEvent::<String>::Key(Some("late".to_string())));
    assert_eq!(step.item, None);
    assert!(matches!(step.next, ScanState::Done));
}

#[test]
fn an_answer_out_of_turn_ends_the_scan() {
    let step = ScanState::Advancing.step(ScanEvent::<String>::Value(Some(vec![1])));
    assert_eq!(step.item, None);
    assert!(matches!(step.next, ScanState::Done));
}

#[test]
fn redis_expiry_in_seconds() {
    let redis = RedisBackend::new("redis://127.0.0.1").unwrap();
    assert_eq!(redis.on_put(&PutOptions::default()), None);
    assert_eq!(redis.on_put(&PutOptions::ttl_secs(60)), Some(60));
    assert_eq!(redis.on_put(&PutOptions::ttl_secs(0)), Some(0));
    assert_eq!(
        redis.on_put(&PutOptions::ttl_secs(u64::MAX)),
        Some(usize::try_from(u64::MAX).unwrap_or(usize::MAX))
    );
}
