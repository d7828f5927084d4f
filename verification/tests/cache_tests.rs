use stack_browser::cache::ResponseCache;

#[test]
fn store_then_lookup_returns_content() {
    let mut cache = ResponseCache::new();
    cache.store("https://example.invalid/page1", "payload".to_string(), 100);
    let hit = cache.lookup("https://example.invalid/page1", 100);
    assert_eq!(hit, Some("payload".to_string()));
}

#[test]
fn lookup_just_inside_window_hits() {
    let mut cache = ResponseCache::new();
    cache.store("k", "v".to_string(), 100);
    assert_eq!(cache.lookup("k", 399), Some("v".to_string()));
}

#[test]
fn lookup_after_window_misses() {
    let mut cache = ResponseCache::new();
    cache.store("k", "v".to_string(), 100);
    // 300 seconds later the entry is stale, forcing a live fetch.
    assert_eq!(cache.lookup("k", 400), None);
}

#[test]
fn lookup_unknown_key_misses() {
    let cache = ResponseCache::new();
    assert_eq!(cache.lookup("nope", 0), None);
}

#[test]
fn store_overwrites_previous_entry() {
    let mut cache = ResponseCache::new();
    cache.store("k", "old".to_string(), 10);
    cache.store("k", "new".to_string(), 20);
    assert_eq!(cache.lookup("k", 25), Some("new".to_string()));
}

#[test]
fn entry_reports_stored_time() {
    let mut cache = ResponseCache::new();
    cache.store("k", "v".to_string(), 42);
    let entry = cache.entry("k").expect("entry should be present");
    assert_eq!(entry.ttl, "v".to_string());
    assert_eq!(entry.created_at, 42);
    // `entry` sees even stale entries; only `lookup` applies the window.
    assert_eq!(cache.lookup("k", 100_000), None);
    assert!(cache.entry("k").is_some());
}
