use gants::cache::{is_fresh, ConsensusCache};
use gants::errors::CacheError;

#[test]
fn put_then_get_before_expiry_returns_the_body() {
    let mut cache = ConsensusCache::new("/tmp/gants-test-cache-roundtrip".to_string());
    let body = "network-status-version 3 microdesc\nvote-status consensus\n";
    let valid_until: i64 = 1704153600;
    cache.put(body, valid_until).unwrap();
    assert_eq!(cache.get(valid_until - 3600).as_deref(), Some(body));
    assert_eq!(cache.get(valid_until).as_deref(), Some(body));
}

#[test]
fn get_after_expiry_is_a_miss() {
    let mut cache = ConsensusCache::new("/tmp/gants-test-cache-expired".to_string());
    let valid_until: i64 = 1704153600;
    cache.put("stale body", valid_until).unwrap();
    assert_eq!(cache.get(valid_until + 1), None);
}

#[test]
fn get_from_an_empty_store_is_a_miss() {
    let cache = ConsensusCache::new("/tmp/gants-test-cache-empty".to_string());
    assert_eq!(cache.get(0), None);
}

#[test]
fn a_later_put_overwrites_the_record() {
    let mut cache = ConsensusCache::new("/tmp/gants-test-cache-overwrite".to_string());
    cache.put("first", 1704153600).unwrap();
    cache.put("second", 1704240000).unwrap();
    assert_eq!(cache.get(1704200000).as_deref(), Some("second"));
}

#[test]
fn unrepresentable_expiry_is_reported() {
    let mut cache = ConsensusCache::new("/tmp/gants-test-cache-range".to_string());
    assert_eq!(
        cache.put("body", i64::MAX).unwrap_err(),
        CacheError::TimestampOutOfRange
    );
}

#[test]
fn freshness_is_the_comparison_against_the_expiry() {
    assert!(is_fresh(100, 99));
    assert!(is_fresh(100, 100));
    assert!(!is_fresh(100, 101));
}

#[test]
fn expiry_before_year_zero_is_reported() {
    let mut cache = ConsensusCache::new("/tmp/gants-test-cache-negative".to_string());
    assert_eq!(
        cache.put("body", -62167219201).unwrap_err(),
        CacheError::TimestampOutOfRange
    );
}
