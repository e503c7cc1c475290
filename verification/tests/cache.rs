use std::time::Duration;

use chancela_api::cache::{
    expiry_instant, read_entry, select_cache_backend, Cache, CacheBackend, CacheKey, EntryRead, MokaCache, NullCache,
    SharedCache,
};

#[test]
fn null_cache_is_inert() {
    let cache = NullCache;
    let key = CacheKey::CaeCatalog;
    assert_eq!(cache.kind(), "null");
    assert!(cache.get(&key).is_none(), "NullCache always misses");
    cache.set(&key, b"ignored", Duration::from_secs(60));
    cache.invalidate(&key);
    assert!(cache.get(&key).is_none(), "NullCache never stores anything");
}

/// A backend whose every operation fails: `get` misses and `set`/`invalidate` do nothing, as a
/// down shared store does.
#[derive(Debug)]
struct AlwaysFailingCache;

impl Cache for AlwaysFailingCache {
    fn get(&self, _key: &CacheKey) -> Option<Vec<u8>> {
        None
    }
    fn set(&self, _key: &CacheKey, _value: &[u8], _ttl: Duration) {}
    fn invalidate(&self, _key: &CacheKey) {}
    fn kind(&self) -> &'static str {
        "always-failing"
    }
}

/// The cache-aside call shape: hit returns the cached bytes; a miss computes, populates and returns.
fn cache_aside(cache: &dyn Cache, key: &CacheKey, mut compute: impl FnMut() -> Vec<u8>) -> Vec<u8> {
    if let Some(hit) = cache.get(key) {
        return hit;
    }
    let value = compute();
    cache.set(key, &value, Duration::from_secs(60));
    value
}

#[test]
fn cache_aside_is_fail_open_when_the_backend_always_fails() {
    let cache = AlwaysFailingCache;
    let key = CacheKey::CaeCatalog;
    let mut computed = 0u32;
    for _ in 0..3 {
        let value = cache_aside(&cache, &key, || {
            computed += 1;
            b"authoritative".to_vec()
        });
        assert_eq!(value, b"authoritative");
    }
    assert_eq!(computed, 3, "a failing backend must fall through to compute every time");
}

#[test]
fn shared_cache_defaults_to_null() {
    let shared = SharedCache::default();
    assert_eq!(shared.kind(), "null");
    assert!(shared.get(&CacheKey::CaeCatalog).is_none());
}

#[test]
fn shared_cache_wraps_the_given_backend() {
    let shared = SharedCache::new(AlwaysFailingCache);
    assert_eq!(shared.kind(), "always-failing");
    let clone = shared.clone();
    assert_eq!(clone.kind(), "always-failing");
    assert_eq!(SharedCache::null().kind(), "null");
}

#[test]
fn cache_keys_are_namespaced_for_the_shared_store() {
    assert_eq!(CacheKey::CaeCatalog.redis_key(), "chancela:v1:cae:catalog");
    assert_eq!(
        CacheKey::ActDocuments("act-1".to_owned()).redis_key(),
        "chancela:v1:act-documents:act-1"
    );
}

#[test]
fn cache_backend_prefers_the_shared_store_then_moka_then_null() {
    assert_eq!(select_cache_backend(true, &Some("moka".to_owned())), CacheBackend::Redis);
    assert_eq!(select_cache_backend(true, &None), CacheBackend::Redis);
    assert_eq!(select_cache_backend(false, &Some("  moka ".to_owned())), CacheBackend::Moka);
    assert_eq!(select_cache_backend(false, &Some("MOKA".to_owned())), CacheBackend::Null);
    assert_eq!(select_cache_backend(false, &Some("".to_owned())), CacheBackend::Null);
    assert_eq!(select_cache_backend(false, &None), CacheBackend::Null);
}

#[test]
fn moka_cache_aside_populates_on_miss_and_invalidates_on_mutation() {
    let cache = MokaCache::new();
    let key = CacheKey::CaeCatalog;
    assert_eq!(cache.kind(), "moka");
    assert!(cache.get(&key).is_none());
    cache.set(&key, b"catalog-projection-v1", Duration::from_secs(300));
    assert_eq!(cache.get(&key).as_deref(), Some(&b"catalog-projection-v1"[..]));
    cache.invalidate(&key);
    assert!(cache.get(&key).is_none());
}

#[test]
fn moka_cache_respects_ttl() {
    let cache = MokaCache::new();
    let key = CacheKey::ActDocuments("act-1".to_owned());
    // A zero TTL is already expired on read, so it reads as a miss.
    cache.set(&key, b"stale", Duration::from_secs(0));
    assert!(cache.get(&key).is_none(), "an entry past its TTL must read as a miss");
}

#[test]
fn shared_cache_derefs_to_wrapped_backend() {
    let shared = SharedCache::new(MokaCache::new());
    assert_eq!(shared.kind(), "moka");
    let key = CacheKey::CaeCatalog;
    shared.set(&key, b"v", Duration::from_secs(60));
    assert_eq!(shared.get(&key).as_deref(), Some(&b"v"[..]));
}

#[test]
fn an_entry_expires_at_its_instant_and_not_before() {
    assert_eq!(read_entry(None, 5), EntryRead::Miss);
    assert_eq!(read_entry(Some((10, b"x".to_vec())), 9), EntryRead::Fresh(b"x".to_vec()));
    assert_eq!(read_entry(Some((10, b"x".to_vec())), 10), EntryRead::Expired);
    assert_eq!(read_entry(Some((10, b"x".to_vec())), 11), EntryRead::Expired);
    assert_eq!(expiry_instant(7, 3), Some(10));
    assert_eq!(expiry_instant(u128::MAX, 1), None);
}
