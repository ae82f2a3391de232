use meshtastic_api::cache::{Cache, CacheEntry, CacheIndex};

const HOUR: i64 = 3_600_000;

#[test]
fn new_cache_is_empty() {
    let cache: Cache<String> = Cache::new(HOUR, 4);
    assert_eq!(cache.len(), 0);
}

#[test]
fn stored_forecast_is_found_while_fresh() {
    let mut cache = Cache::new(HOUR, 4);
    cache.cache_at(CacheIndex(5234, 1340), String::from("sunny"), 1_000);
    assert_eq!(cache.lookup_at(CacheIndex(5234, 1340), 1_000 + HOUR - 1), Some(String::from("sunny")));
    assert_eq!(cache.len(), 1);
}

#[test]
fn expired_forecast_is_removed_on_lookup() {
    let mut cache = Cache::new(HOUR, 4);
    cache.cache_at(CacheIndex(1, 2), 7u32, 0);
    assert_eq!(cache.lookup_at(CacheIndex(1, 2), HOUR), None);
    assert_eq!(cache.len(), 0);
}

#[test]
fn missing_cell_gives_nothing() {
    let mut cache = Cache::new(HOUR, 4);
    cache.cache_at(CacheIndex(1, 2), 7u32, 0);
    assert_eq!(cache.lookup_at(CacheIndex(2, 1), 0), None);
    assert_eq!(cache.lookup_at(CacheIndex(1, -2), 0), None);
    assert_eq!(cache.len(), 1);
}

#[test]
fn storing_again_replaces() {
    let mut cache = Cache::new(HOUR, 4);
    cache.cache_at(CacheIndex(-9000, 18000), 1u32, 0);
    cache.cache_at(CacheIndex(-9000, 18000), 2u32, 10);
    assert_eq!(cache.len(), 1);
    assert_eq!(cache.lookup_at(CacheIndex(-9000, 18000), 10), Some(2));
}

#[test]
fn cleanup_removes_only_expired() {
    let mut cache = Cache::new(HOUR, 100);
    cache.cache_at(CacheIndex(0, 0), 0u32, 0);
    cache.cache_at(CacheIndex(0, 1), 1u32, 0);
    cache.cache_at(CacheIndex(0, 2), 2u32, HOUR);
    assert_eq!(cache.cleanup_at(HOUR + 1), 2);
    assert_eq!(cache.len(), 1);
    assert_eq!(cache.lookup_at(CacheIndex(0, 2), HOUR + 1), Some(2));
}

#[test]
fn check_cleanup_waits_for_the_limit() {
    let mut cache = Cache::new(HOUR, 3);
    cache.cache_at(CacheIndex(0, 0), 0u32, 0);
    cache.cache_at(CacheIndex(0, 1), 1u32, 0);
    assert_eq!(cache.check_cleanup_at(2 * HOUR), None);
    assert_eq!(cache.len(), 2);
    cache.cache_at(CacheIndex(0, 2), 2u32, 2 * HOUR);
    assert_eq!(cache.len(), 1);
    assert_eq!(cache.lookup_at(CacheIndex(0, 2), 2 * HOUR), Some(2));
}

#[test]
fn check_cleanup_reports_count() {
    let mut cache = Cache::new(HOUR, 2);
    cache.cache_at(CacheIndex(3, 3), 0u32, 5 * HOUR);
    cache.cache_at(CacheIndex(4, 4), 1u32, 5 * HOUR);
    assert_eq!(cache.check_cleanup_at(7 * HOUR), Some(2));
    assert_eq!(cache.len(), 0);
}

#[test]
fn clock_based_calls_keep_fresh_entries() {
    let mut cache = Cache::new(HOUR, 8);
    cache.cache(CacheIndex(10, 20), String::from("rain"));
    assert_eq!(cache.lookup(CacheIndex(10, 20)), Some(String::from("rain")));
    assert_eq!(cache.cleanup(), 0);
    assert_eq!(cache.check_cleanup(), None);
}

#[test]
fn cell_keys_are_distinct() {
    let cells = [CacheIndex(0, -1), CacheIndex(-1, -1), CacheIndex(1, -32768), CacheIndex(0, 32767)];
    for (i, a) in cells.iter().enumerate() {
        for (j, b) in cells.iter().enumerate() {
            assert_eq!(a.key() == b.key(), i == j);
        }
    }
    assert_eq!(CacheIndex(1, 1).key(), 65537);
}

#[test]
fn entry_keeps_its_stamp() {
    let e = CacheEntry::new("x", 42);
    assert_eq!(e.timestamp, 42);
    assert_eq!(e.forecast, "x");
}
