use cuttlestore::envelope::{is_expired, live_until_for, ReadPlan, Reading, StoredEnvelope};
use cuttlestore::PutOptions;

#[test]
fn expiry_is_strict() {
    assert!(!is_expired(None, u64::MAX));
    assert!(!is_expired(Some(10), 9));
    assert!(!is_expired(Some(10), 10));
    assert!(is_expired(Some(10), 11));
}

#[test]
fn deadline_is_now_plus_ttl() {
    assert_eq!(live_until_for(&PutOptions::ttl_secs(30), 100), Some(130));
    assert_eq!(live_until_for(&PutOptions::ttl_secs(0), 100), Some(100));
    assert_eq!(live_until_for(&PutOptions::default(), 100), None);
}

#[test]
fn deadline_stops_at_the_largest_second() {
    assert_eq!(live_until_for(&PutOptions::ttl_secs(u64::MAX), 100), Some(u64::MAX));
    assert_eq!(live_until_for(&PutOptions::ttl_secs(1), u64::MAX), Some(u64::MAX));
}

#[test]
fn seal_keeps_the_payload() {
    let envelope = StoredEnvelope::seal(b"payload", &PutOptions::ttl_secs(5), 20);
    assert_eq!(envelope.payload, b"payload".to_vec());
    assert_eq!(envelope.live_until, Some(25));
    assert!(!envelope.is_expired(25));
    assert!(envelope.is_expired(26));
}

#[test]
fn encoded_bytes_without_deadline() {
    let envelope = StoredEnvelope::seal(&[1, 2, 3], &PutOptions::default(), 20);
    assert_eq!(
        envelope.encode().unwrap(),
        vec![3, 0, 0, 0, 0, 0, 0, 0, 1, 2, 3, 0]
    );
}

#[test]
fn encoded_bytes_with_deadline() {
    let envelope = StoredEnvelope::seal(&[1, 2, 3], &PutOptions::ttl_secs(5), 0x0102);
    assert_eq!(
        envelope.encode().unwrap(),
        vec![3, 0, 0, 0, 0, 0, 0, 0, 1, 2, 3, 1, 7, 1, 0, 0, 0, 0, 0, 0]
    );
}

#[test]
fn decode_reads_what_encode_wrote() {
    let envelope = StoredEnvelope::seal(b"some value", &PutOptions::ttl_secs(7), 1_000);
    let bytes = envelope.encode().unwrap();
    assert_ne!(bytes, b"some value".to_vec());
    let read = StoredEnvelope::decode(&bytes).unwrap();
    assert_eq!(read.payload, b"some value".to_vec());
    assert_eq!(read.live_until, Some(1_007));
}

#[test]
fn decode_reads_an_empty_payload() {
    let bytes = StoredEnvelope::seal(b"", &PutOptions::default(), 0).encode().unwrap();
    let read = StoredEnvelope::decode(&bytes).unwrap();
    assert_eq!(read.payload, Vec::<u8>::new());
    assert_eq!(read.live_until, None);
}

#[test]
fn decode_rejects_damaged_bytes() {
    assert!(StoredEnvelope::decode(&[]).is_none());
    assert!(StoredEnvelope::decode(&[1, 2, 3]).is_none());
    // A length that promises more bytes than there are.
    assert!(StoredEnvelope::decode(&[9, 0, 0, 0, 0, 0, 0, 0, 1, 2, 3, 0]).is_none());
    // A marker for the deadline that is neither 0 nor 1.
    assert!(StoredEnvelope::decode(&[1, 0, 0, 0, 0, 0, 0, 0, 42, 7]).is_none());
    // A deadline that is cut short.
    assert!(StoredEnvelope::decode(&[1, 0, 0, 0, 0, 0, 0, 0, 42, 1, 5, 0]).is_none());
}

#[test]
fn reading_of_live_bytes() {
    let bytes = StoredEnvelope::seal(b"v", &PutOptions::ttl_secs(3), 10).encode().unwrap();
    let reading = Reading::of(&bytes, 13);
    assert!(!reading.is_stale());
    assert_eq!(reading.into_value(), Some(b"v".to_vec()));
}

#[test]
fn reading_of_expired_bytes() {
    let bytes = StoredEnvelope::seal(b"v", &PutOptions::ttl_secs(3), 10).encode().unwrap();
    let reading = Reading::of(&bytes, 14);
    assert!(matches!(reading, Reading::Expired));
    assert!(reading.is_stale());
    assert_eq!(reading.into_value(), None);
}

#[test]
fn reading_of_corrupt_bytes_is_absent_not_an_error() {
    let reading = Reading::of(&[0xff, 0xff, 0xff], 14);
    assert!(matches!(reading, Reading::Corrupt));
    assert!(reading.is_stale());
    assert_eq!(reading.into_value(), None);
}

#[test]
fn judge_without_envelope_is_corrupt() {
    assert!(matches!(Reading::judge(None, 0), Reading::Corrupt));
    let envelope = StoredEnvelope { payload: vec![1], live_until: None };
    assert!(matches!(Reading::judge(Some(envelope), u64::MAX), Reading::Live(_)));
}

#[test]
fn what_follows_from_a_reading() {
    assert_eq!(
        Reading::Live(vec![1]).plan(),
        ReadPlan { value: Some(vec![1]), delete: false, corrupt: false }
    );
    assert_eq!(
        Reading::Expired.plan(),
        ReadPlan { value: None, delete: true, corrupt: false }
    );
    assert_eq!(
        Reading::Corrupt.plan(),
        ReadPlan { value: None, delete: true, corrupt: true }
    );
    assert_eq!(
        ReadPlan::absent(),
        ReadPlan { value: None, delete: false, corrupt: false }
    );
}
