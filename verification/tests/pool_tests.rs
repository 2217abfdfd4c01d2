use dbdesk::pool::{PoolDecision, PoolManager};

#[test]
fn fresh_cache_is_empty() {
    let m: PoolManager<u32> = PoolManager::new();
    assert!(m.cached_pool("c1", None).is_none());
    assert!(m.cached_pool("c1", Some("db")).is_none());
}

#[test]
fn insert_then_lookup_returns_the_handle() {
    let mut m: PoolManager<u32> = PoolManager::new();
    m.insert_pool("c1", Some("a"), 11);
    assert_eq!(m.cached_pool("c1", Some("a")), Some(&11));
    assert!(m.cached_pool("c1", Some("b")).is_none());
    assert!(m.cached_pool("c1", None).is_none());
    assert!(m.cached_pool("c2", Some("a")).is_none());
}

#[test]
fn keys_separate_databases_of_one_connection() {
    let mut m: PoolManager<u32> = PoolManager::new();
    m.insert_pool("c1", Some("a"), 1);
    m.insert_pool("c1", Some("b"), 2);
    m.insert_pool("c1", None, 3);
    assert_eq!(m.cached_pool("c1", Some("a")), Some(&1));
    assert_eq!(m.cached_pool("c1", Some("b")), Some(&2));
    assert_eq!(m.cached_pool("c1", None), Some(&3));
    assert_eq!(m.get_pool_without_db("c1"), Some(&3));
}

#[test]
fn insert_replaces_a_stale_entry() {
    let mut m: PoolManager<u32> = PoolManager::new();
    m.insert_pool("c1", Some("a"), 1);
    m.insert_pool("c1", Some("a"), 9);
    assert_eq!(m.cached_pool("c1", Some("a")), Some(&9));
}

#[test]
fn acquire_reuses_only_a_healthy_cached_handle() {
    let mut m: PoolManager<u32> = PoolManager::new();
    // nothing cached: always rebuild, whatever the health flag says
    assert_eq!(m.acquire_decision("c1", Some("a"), true), PoolDecision::Rebuild);
    m.insert_pool("c1", Some("a"), 5);
    assert_eq!(m.acquire_decision("c1", Some("a"), true), PoolDecision::Reuse);
    assert_eq!(m.acquire_decision("c1", Some("a"), false), PoolDecision::Rebuild);
}

#[test]
fn second_acquire_for_same_key_reuses() {
    // the sequential shape of idempotent acquisition: after one build and
    // insert, a second acquire for the same key reuses the cached handle
    let mut m: PoolManager<&'static str> = PoolManager::new();
    assert_eq!(m.acquire_decision("c1", Some("a"), true), PoolDecision::Rebuild);
    m.insert_pool("c1", Some("a"), "pool");
    assert_eq!(m.acquire_decision("c1", Some("a"), true), PoolDecision::Reuse);
    assert_eq!(m.cached_pool("c1", Some("a")), Some(&"pool"));
}

#[test]
fn evict_drops_only_one_key() {
    let mut m: PoolManager<u32> = PoolManager::new();
    m.insert_pool("c1", Some("a"), 1);
    m.insert_pool("c1", Some("b"), 2);
    m.evict_pool("c1", Some("a"));
    assert!(m.cached_pool("c1", Some("a")).is_none());
    assert_eq!(m.cached_pool("c1", Some("b")), Some(&2));
    // evicting an absent key is a no-op
    m.evict_pool("c9", None);
    assert_eq!(m.cached_pool("c1", Some("b")), Some(&2));
}

#[test]
fn invalidate_removes_every_database_of_the_connection() {
    let mut m: PoolManager<u32> = PoolManager::new();
    m.insert_pool("c1", Some("a"), 1);
    m.insert_pool("c1", Some("b"), 2);
    m.insert_pool("c1", None, 3);
    m.insert_pool("c2", Some("a"), 4);
    m.remove_pool("c1");
    assert!(m.cached_pool("c1", Some("a")).is_none());
    assert!(m.cached_pool("c1", Some("b")).is_none());
    assert!(m.cached_pool("c1", None).is_none());
    assert_eq!(m.cached_pool("c2", Some("a")), Some(&4));
    // a later acquire for the invalidated connection must rebuild
    assert_eq!(m.acquire_decision("c1", Some("a"), true), PoolDecision::Rebuild);
}

#[test]
fn clear_all_empties_the_cache() {
    let mut m: PoolManager<u32> = PoolManager::new();
    m.insert_pool("c1", Some("a"), 1);
    m.insert_pool("c2", None, 2);
    m.clear_all();
    assert!(m.cached_pool("c1", Some("a")).is_none());
    assert!(m.cached_pool("c2", None).is_none());
}
