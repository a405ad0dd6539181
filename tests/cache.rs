use interview_spark::cache::{CacheEntry, GenericCache};

#[test]
fn test_cache_set_get() {
    let mut cache = GenericCache::<String, i32>::new(60);
    cache.set("key1".to_string(), 42, None);

    assert_eq!(cache.get(&"key1".to_string()), Some(42));
    assert_eq!(cache.get(&"key2".to_string()), None);
}

#[test]
fn test_cache_expiration() {
    let mut cache = GenericCache::<String, i32>::new(1);
    cache.set_at("key1".to_string(), 42, Some(100), 1_000);

    assert_eq!(cache.get_at(&"key1".to_string(), 1_050), Some(42));
    assert_eq!(cache.get_at(&"key1".to_string(), 1_150), None);
}

#[test]
fn test_cache_invalidate() {
    let mut cache = GenericCache::<String, i32>::new(60);
    cache.set("key1".to_string(), 42, None);

    assert_eq!(cache.get(&"key1".to_string()), Some(42));

    cache.invalidate(&"key1".to_string());
    assert_eq!(cache.get(&"key1".to_string()), None);
}

#[test]
fn test_cache_hit_rate() {
    let mut cache = GenericCache::<String, i32>::new(60);
    cache.set("key1".to_string(), 42, None);

    cache.get(&"key1".to_string());
    cache.get(&"key1".to_string());

    cache.get(&"key2".to_string());

    let rate = cache.hits() as f64 / (cache.hits() + cache.misses()) as f64;
    assert_eq!(rate, 2.0 / 3.0);
}

#[test]
fn cache_default_ttl_applies_in_seconds() {
    let mut cache = GenericCache::<String, i32>::new(2);
    cache.set_at("k".to_string(), 7, None, 10_000);
    assert_eq!(cache.get_at(&"k".to_string(), 12_000), Some(7));
    assert_eq!(cache.get_at(&"k".to_string(), 12_001), None);
    assert_eq!(cache.misses(), 1);
    assert_eq!(cache.hits(), 1);
}

#[test]
fn cache_set_replaces_value() {
    let mut cache = GenericCache::<String, String>::new(60);
    cache.set("k".to_string(), "a".to_string(), None);
    cache.set("k".to_string(), "b".to_string(), None);
    assert_eq!(cache.get(&"k".to_string()), Some("b".to_string()));
}

#[test]
fn cache_cleanup_drops_only_expired() {
    let mut cache = GenericCache::<String, i32>::new(60);
    cache.set_at("old".to_string(), 1, Some(10), 0);
    cache.set_at("new".to_string(), 2, Some(1_000), 0);
    cache.cleanup_at(500);
    assert_eq!(cache.misses(), 0);
    assert_eq!(cache.get_at(&"new".to_string(), 500), Some(2));
    assert_eq!(cache.get_at(&"old".to_string(), 0), None);
}

#[test]
fn cache_clear_empties() {
    let mut cache = GenericCache::<String, i32>::new(60);
    cache.set("a".to_string(), 1, None);
    cache.set("b".to_string(), 2, None);
    cache.clear();
    assert_eq!(cache.get(&"a".to_string()), None);
    assert_eq!(cache.get(&"b".to_string()), None);
}

#[test]
fn cache_entry_expiry() {
    let e = CacheEntry::new_at(5u8, 60, 1_000);
    assert!(!e.is_expired_at(61_000));
    assert!(e.is_expired_at(61_001));
    assert!(!e.is_expired_at(500));
    let fresh = CacheEntry::new("x", 60);
    assert!(!fresh.is_expired());
    assert_eq!(fresh.data, "x");
}
