use std::cell::Cell;

use spacestatus::badge::Badges;
use spacestatus::cache::RefreshCache;
use spacestatus::health::{Health, HTTP_OK, HTTP_UNAVAILABLE};
use spacestatus::StatusError;

#[test]
fn reads_within_one_window_recompute_once() {
    let runs = Cell::new(0u32);
    let mut cache = RefreshCache::new(0u32, 60);
    for now in 1000..1060 {
        cache.refresh_at(now, || {
            runs.set(runs.get() + 1);
            runs.get()
        });
        assert_eq!(*cache.value(), 1);
    }
    assert_eq!(runs.get(), 1);
}

#[test]
fn read_after_window_recomputes() {
    let mut cache = RefreshCache::new(0u32, 60);
    assert!(cache.refresh_at(1000, || 1));
    assert!(!cache.refresh_at(1059, || 2));
    assert_eq!(*cache.value(), 1);
    assert!(cache.refresh_at(1060, || 3));
    assert_eq!(*cache.value(), 3);
}

#[test]
fn zero_ttl_recomputes_every_read() {
    let runs = Cell::new(0u32);
    let mut cache = RefreshCache::new(0u32, 0);
    for _ in 0..5 {
        cache.refresh_at(1000, || {
            runs.set(runs.get() + 1);
            runs.get()
        });
    }
    assert_eq!(runs.get(), 5);
    assert_eq!(*cache.value(), 5);
}

#[test]
fn get_with_clock_memoizes() {
    let runs = Cell::new(0u32);
    let mut cache = RefreshCache::new(String::from("unknown"), 3600);
    let first = cache
        .get(|| {
            runs.set(runs.get() + 1);
            String::from("fresh")
        })
        .clone();
    let second = cache.get(|| String::from("again")).clone();
    assert_eq!(first, "fresh");
    assert_eq!(second, "fresh");
    assert_eq!(runs.get(), 1);
    assert!(!cache.is_stale(first_read_time_lower_bound()));
}

/// 2023-11-14, before any run of these tests.
fn first_read_time_lower_bound() -> i64 {
    1_700_000_000
}

#[test]
fn store_records_value_and_time() {
    let mut cache = RefreshCache::new(1u8, 10);
    assert!(cache.is_stale(0));
    cache.store(7, 100);
    assert_eq!(*cache.value(), 7);
    assert!(!cache.is_stale(109));
    assert!(cache.is_stale(110));
    assert_eq!(cache.ttl(), 10);
}

#[test]
fn health_starts_unavailable() {
    let cache = Health::cache(30);
    assert_eq!(*cache.value(), Health::Unavailable);
    assert_eq!(cache.value().status_code(), HTTP_UNAVAILABLE);
    assert!(cache.is_stale(0));
}

#[test]
fn health_follows_probe() {
    assert_eq!(Health::from_probe(&Ok(())), Health::Healthy);
    assert_eq!(Health::from_probe(&Err(StatusError::Database("down".to_string()))), Health::Unavailable);
    assert_eq!(Health::Healthy.status_code(), 200);
    assert_eq!(HTTP_OK, 200);
    assert_eq!(Health::Unavailable.status_code(), 418);
}

#[test]
fn badge_cache_starts_unknown() {
    let badges = Badges::new("open".to_string(), "closed".to_string(), "unknown".to_string());
    let cache = badges.cache(30);
    assert_eq!(cache.value(), "unknown");
    assert_eq!(cache.ttl(), 30);
}
