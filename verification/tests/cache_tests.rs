use bazaar_realm_api::cache::Cache;
use bazaar_realm_api::registry::Caches;

#[test]
fn hit_path_is_idempotent_and_computes_once() {
    let mut cache: Cache<i32, i32> = Cache::new("test", 4);
    let mut calls = 0;
    let r1: Result<&i32, ()> = cache.get(7, || {
        calls += 1;
        Ok(41)
    });
    assert_eq!(r1.cloned(), Ok(41));
    let mut calls2 = 0;
    let r2: Result<&i32, ()> = cache.get(7, || {
        calls2 += 1;
        Ok(99)
    });
    assert_eq!(r2.cloned(), Ok(41));
    assert_eq!(calls, 1);
    assert_eq!(calls2, 0);
}

#[test]
fn lru_eviction_scenario() {
    // Capacity 2: fill with 1 and 2, refresh 1, insert 3: 2 leaves, not 1.
    let mut cache: Cache<i32, i32> = Cache::new("test", 2);
    let mut c1 = 0;
    let _ = cache.get::<(), _>(1, || {
        c1 += 1;
        Ok(10)
    });
    let mut c2 = 0;
    let _ = cache.get::<(), _>(2, || {
        c2 += 1;
        Ok(20)
    });
    // hit on 1 refreshes its recency
    let r = cache.lookup(&1).cloned();
    assert_eq!(r, Some(10));
    // miss on 3 evicts 2, the least recently accessed
    let mut c3 = 0;
    let _ = cache.get::<(), _>(3, || {
        c3 += 1;
        Ok(30)
    });
    assert_eq!(c3, 1);
    // 2 was evicted: recomputed; that insert evicts 1 in turn
    let mut c2b = 0;
    let r2 = cache.get::<(), _>(2, || {
        c2b += 1;
        Ok(21)
    });
    assert_eq!(r2.cloned(), Ok(21));
    assert_eq!(c2b, 1);
    assert_eq!(cache.lookup(&1).cloned(), None);
    assert_eq!(cache.lookup(&3).cloned(), Some(30));
}

#[test]
fn delete_then_recompute() {
    let mut cache: Cache<i32, i32> = Cache::new("test", 4);
    let _ = cache.get::<(), _>(5, || Ok(50));
    assert_eq!(cache.delete(&5), Some(50));
    assert_eq!(cache.delete(&5), None);
    let mut calls = 0;
    let r = cache.get::<(), _>(5, || {
        calls += 1;
        Ok(51)
    });
    assert_eq!(r.cloned(), Ok(51));
    assert_eq!(calls, 1);
}

#[test]
fn clear_then_recompute_every_key() {
    let mut cache: Cache<i32, i32> = Cache::new("test", 4);
    let _ = cache.get::<(), _>(1, || Ok(10));
    let _ = cache.get::<(), _>(2, || Ok(20));
    assert_eq!(cache.len(), 2);
    cache.clear();
    assert_eq!(cache.len(), 0);
    let mut calls = 0;
    let _ = cache.get::<(), _>(1, || {
        calls += 1;
        Ok(11)
    });
    let _ = cache.get::<(), _>(2, || {
        calls += 1;
        Ok(21)
    });
    assert_eq!(calls, 2);
}

#[test]
fn failed_compute_is_not_cached() {
    let mut cache: Cache<i32, i32> = Cache::new("test", 4);
    let r1: Result<&i32, String> = cache.get(9, || Err("boom".to_string()));
    assert_eq!(r1.err(), Some("boom".to_string()));
    assert_eq!(cache.len(), 0);
    let mut calls = 0;
    let r2: Result<&i32, String> = cache.get(9, || {
        calls += 1;
        Ok(90)
    });
    assert_eq!(r2.cloned(), Ok(90));
    assert_eq!(calls, 1);
}

#[test]
fn cache_config_and_builder() {
    let cache: Cache<i32, i32> = Cache::new("owner_ids", 100).log_keys(false);
    assert_eq!(cache.name(), "owner_ids");
    assert_eq!(cache.capacity(), 100);
    assert!(!cache.logs_keys());
    assert_eq!(cache.len(), 0);
}

#[test]
fn diagnostics_echo_keys_only_when_allowed() {
    let chatty: Cache<i32, i32> = Cache::new("shop", 4);
    assert_eq!(chatty.log_with_key("7", "get: hit"), "cache=shop key=7 get: hit");
    let discreet: Cache<i32, i32> = Cache::new("owner_ids_by_api_key", 4).log_keys(false);
    assert_eq!(
        discreet.log_with_key("secret", "get: miss"),
        "cache=owner_ids_by_api_key get: miss"
    );
}

#[test]
fn authenticate_without_key_is_unauthorized() {
    let mut caches = Caches::initialize();
    let r = caches.authenticate(None, || Ok(1));
    let p = r.err().expect("missing key must be refused");
    assert_eq!(p.status(), 401);
    assert_eq!(
        p.detail().as_ref().map(|s| s.as_str()),
        Some("Api-Key header not present")
    );
}

#[test]
fn authenticate_caches_successful_lookups_only() {
    let mut caches = Caches::initialize();
    let key: u128 = 0x1234_5678_9abc_def0;
    // a failed lookup is not remembered
    let r1 = caches.authenticate(Some(key), || Err(bazaar_realm_api::problem::unauthorized_no_owner()));
    assert_eq!(r1.err().map(|p| p.status()), Some(401));
    // the next call looks the owner up again, and the success is remembered
    let mut calls = 0;
    let r2 = caches.authenticate(Some(key), || {
        calls += 1;
        Ok(42)
    });
    assert_eq!(r2.ok(), Some(42));
    assert_eq!(calls, 1);
    let r3 = caches.authenticate(Some(key), || Ok(7));
    assert_eq!(r3.ok(), Some(42));
}
