use coin_core::error::CoinError;
use coin_core::utils::{
    expiration_to_ts, from_timestamp, is_expired, is_expired_at, timestamp, utc_timestamp_of_secs,
};

const MIN_UTC: i64 = -8_334_601_228_800;
const MAX_UTC: i64 = 8_210_266_876_799;

#[test]
fn expiration_is_issue_time_plus_lifetime() {
    let dt = expiration_to_ts(1_700_000_000, 3_600).unwrap();
    assert_eq!(dt.timestamp(), 1_700_003_600);
}

#[test]
fn expiration_at_last_representable_second() {
    let dt = expiration_to_ts(MAX_UTC as u64, 0).unwrap();
    assert_eq!(dt.timestamp(), MAX_UTC);
}

#[test]
fn expiration_past_last_representable_second_is_invalid() {
    assert_eq!(expiration_to_ts(MAX_UTC as u64, 1), Err(CoinError::InvalidTimestamp));
}

#[test]
fn expiration_wraps_to_negative_timestamp() {
    let dt = expiration_to_ts(u64::MAX, 0).unwrap();
    assert_eq!(dt.timestamp(), -1);
}

#[test]
fn expiration_at_first_representable_second() {
    let secs = (MIN_UTC as i128 + (1i128 << 64)) as u64;
    let dt = expiration_to_ts(secs, 0).unwrap();
    assert_eq!(dt.timestamp(), MIN_UTC);
    assert_eq!(expiration_to_ts(secs - 1, 0), Err(CoinError::InvalidTimestamp));
}

#[test]
fn from_timestamp_agrees_with_chrono_at_the_bounds() {
    for secs in [MIN_UTC - 1, MIN_UTC, 0, MAX_UTC, MAX_UTC + 1, i64::MIN, i64::MAX] {
        let ours = from_timestamp(secs).map(|d| d.timestamp());
        let theirs = chrono::DateTime::<chrono::Utc>::from_timestamp(secs, 0).map(|d| d.timestamp());
        assert_eq!(ours, theirs);
    }
}

#[test]
fn expired_only_within_margin() {
    assert!(!is_expired_at(1_000, 100, 979));
    assert!(!is_expired_at(1_000, 100, 980));
    assert!(is_expired_at(1_000, 100, 981));
}

#[test]
fn expired_stays_expired_later() {
    assert!(is_expired_at(1_000, 100, 981));
    assert!(is_expired_at(1_000, 100, 5_000));
    assert!(is_expired_at(1_000, 100, i64::MAX));
}

#[test]
fn wrapped_expiry_is_expired() {
    assert!(is_expired_at(u64::MAX, 0, 0));
}

#[test]
fn clock_based_expiry() {
    assert_eq!(is_expired(0, 0), Some(true));
    assert_eq!(is_expired(MAX_UTC as u64, 0), Some(false));
}

#[test]
fn timestamp_reads_the_clock() {
    let t = timestamp().unwrap();
    assert!(t > 1_600_000_000);
    assert!(t <= MAX_UTC as u64);
}

#[test]
fn expired_exactly_when_expiration_within_margin() {
    let expiration = expiration_to_ts(1_000, 100).unwrap();
    for now in [900i64, 979, 980, 981, 1_100, 2_000] {
        assert_eq!(is_expired_at(1_000, 100, now), expiration.timestamp() < now + 120);
    }
}

#[test]
fn clock_before_epoch_gives_no_timestamp() {
    assert_eq!(utc_timestamp_of_secs(None), None);
}

#[test]
fn clock_seconds_are_the_timestamp() {
    assert_eq!(utc_timestamp_of_secs(Some(0)), Some(0));
    assert_eq!(utc_timestamp_of_secs(Some(1_700_000_000)), Some(1_700_000_000));
    assert_eq!(utc_timestamp_of_secs(Some(MAX_UTC as u64)), Some(MAX_UTC));
}

#[test]
fn clock_past_last_utc_second_gives_no_timestamp() {
    assert_eq!(utc_timestamp_of_secs(Some(MAX_UTC as u64 + 1)), None);
    assert_eq!(utc_timestamp_of_secs(Some(i64::MAX as u64)), None);
    assert_eq!(utc_timestamp_of_secs(Some(i64::MAX as u64 + 1)), None);
    assert_eq!(utc_timestamp_of_secs(Some(u64::MAX)), None);
}
