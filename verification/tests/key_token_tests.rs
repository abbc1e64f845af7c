use advoid::keys::{object_key, storage_key, volume_path};
use advoid::stamp::{clamp_epoch_millis, fresh_event_id, now_epoch_millis, utc_date_string};
use advoid::token::TokenCache;

#[test]
fn object_key_composition() {
    let prefix = b"audit".to_vec();
    let key = object_key(Some(&prefix), b"request", b"2024-05-01", b"abc");
    assert_eq!(key, b"audit/request/2024-05-01/abc.json".to_vec());
    let key = object_key(None, b"response", b"2024-05-01", b"abc");
    assert_eq!(key, b"response/2024-05-01/abc.json".to_vec());
}

#[test]
fn utc_dates_from_timestamps() {
    assert_eq!(utc_date_string(0), b"1970-01-01".to_vec());
    assert_eq!(utc_date_string(86_400_000), b"1970-01-02".to_vec());
    // 2024-05-01T00:00:00Z.
    assert_eq!(utc_date_string(1_714_521_600_000), b"2024-05-01".to_vec());
    // The day before the epoch.
    assert_eq!(utc_date_string(-1), b"1969-12-31".to_vec());
}

#[test]
fn storage_keys_are_dated_and_unique() {
    let prefix = b"pfx".to_vec();
    let a = storage_key(Some(&prefix), b"request", 0);
    let b = storage_key(Some(&prefix), b"request", 0);
    let sa = String::from_utf8(a).unwrap();
    let sb = String::from_utf8(b).unwrap();
    assert!(sa.starts_with("pfx/request/1970-01-01/"));
    assert!(sa.ends_with(".json"));
    assert_eq!(sa.len(), "pfx/request/1970-01-01/".len() + 36 + ".json".len());
    assert_ne!(sa, sb, "each flush must get a fresh key");
    let v = String::from_utf8(volume_path(b"response", 86_400_000)).unwrap();
    assert!(v.starts_with("response/1970-01-02/"));
    assert!(v.ends_with(".json"));
}

#[test]
fn event_ids_are_fresh_and_hyphenated() {
    let a = fresh_event_id();
    let b = fresh_event_id();
    assert_eq!(a.len(), 36);
    assert_ne!(a, b);
    let s = String::from_utf8(a).unwrap();
    assert_eq!(s.as_bytes()[8], b'-');
    assert_eq!(s.as_bytes()[13], b'-');
    assert_eq!(s.as_bytes()[18], b'-');
    assert_eq!(s.as_bytes()[23], b'-');
}

#[test]
fn clock_clamping() {
    assert_eq!(clamp_epoch_millis(-5), 0);
    assert_eq!(clamp_epoch_millis(5), 5);
    assert!(clamp_epoch_millis(now_epoch_millis()) > 1_600_000_000_000);
}

#[test]
fn token_cache_refresh_window() {
    let mut c = TokenCache::new();
    assert_eq!(c.fresh_token(1000), None);
    c.store(b"tok-1".to_vec(), 1000, 300);
    // Valid until 1300; usable while more than 60 s remain.
    assert_eq!(c.fresh_token(1000), Some(b"tok-1".to_vec()));
    assert_eq!(c.fresh_token(1239), Some(b"tok-1".to_vec()));
    assert_eq!(c.fresh_token(1240), None, "the safety margin forces a refresh");
    assert_eq!(c.fresh_token(2000), None);
    // A refresh replaces the cached token.
    c.store(b"tok-2".to_vec(), 2000, 300);
    assert_eq!(c.fresh_token(2000), Some(b"tok-2".to_vec()));
}

#[test]
fn token_expiry_saturates() {
    let mut c = TokenCache::new();
    c.store(b"tok".to_vec(), u64::MAX - 10, 300);
    assert_eq!(c.fresh_token(u64::MAX - 100), Some(b"tok".to_vec()));
}
