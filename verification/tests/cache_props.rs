use rustify::artist::{ArtistErrors, ArtistResult};
use rustify::cache::Cache;

fn key(i: usize) -> String {
    format!("k{}", i)
}

#[test]
fn bound_holds_after_every_put() {
    let mut c: Cache<ArtistResult> = Cache::new();
    for i in 0..25 {
        c.add(&key(i), ArtistResult::Null);
        assert!(c.len() <= 10);
    }
    assert_eq!(c.len(), 10);
}

#[test]
fn eleventh_distinct_key_evicts_exactly_one() {
    let mut c: Cache<ArtistResult> = Cache::new();
    for i in 0..10 {
        c.add(&key(i), ArtistResult::Null);
    }
    assert_eq!(c.len(), 10);
    c.add(&key(10), ArtistResult::Null);
    assert_eq!(c.len(), 10);
    // the earliest-inserted entry is the one that left
    assert!(!c.contains_key(&key(0)));
    for i in 1..11 {
        assert!(c.contains_key(&key(i)));
    }
}

#[test]
fn put_then_get_returns_equal_value() {
    let mut c: Cache<ArtistResult> = Cache::new();
    let v = ArtistResult::Error(ArtistErrors::ArtistNotFound);
    c.add("some-key", v);
    assert_eq!(c.get("some-key"), Some(&ArtistResult::Error(ArtistErrors::ArtistNotFound)));
}

#[test]
fn overwrite_keeps_length_and_updates_value() {
    let mut c: Cache<ArtistResult> = Cache::new();
    c.add("a", ArtistResult::Null);
    c.add("b", ArtistResult::Null);
    c.add("a", ArtistResult::Error(ArtistErrors::ReqwestError));
    assert_eq!(c.len(), 2);
    assert_eq!(c.get("a"), Some(&ArtistResult::Error(ArtistErrors::ReqwestError)));
    assert_eq!(c.get("b"), Some(&ArtistResult::Null));
}

#[test]
fn overwrite_when_full_does_not_evict() {
    let mut c: Cache<ArtistResult> = Cache::new();
    for i in 0..10 {
        c.add(&key(i), ArtistResult::Null);
    }
    c.add(&key(3), ArtistResult::Error(ArtistErrors::ReqwestError));
    assert_eq!(c.len(), 10);
    for i in 0..10 {
        assert!(c.contains_key(&key(i)));
    }
}

#[test]
fn get_of_absent_key_is_none() {
    let c: Cache<ArtistResult> = Cache::new();
    assert_eq!(c.get("missing"), None);
    assert!(!c.contains_key("missing"));
}

#[test]
fn capacity_is_configurable() {
    let mut c: Cache<ArtistResult> = Cache::with_capacity(2);
    c.add("a", ArtistResult::Null);
    c.add("b", ArtistResult::Null);
    c.add("c", ArtistResult::Null);
    assert_eq!(c.len(), 2);
    assert!(!c.contains_key("a"));
    assert!(c.contains_key("b"));
    assert!(c.contains_key("c"));
}
