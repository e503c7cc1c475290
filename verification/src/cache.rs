//! **Cache-aside keys and backends.** A cache only ever holds derived bytes that can be recomputed
//! from the authoritative in-memory state, so every backend is allowed to miss: the default
//! `NullCache` always misses and stores nothing, and a failing backend falls through to the
//! computation rather than failing the request.
use vstd::prelude::*;

use std::sync::Arc;
use std::time::{Duration, Instant};

use moka::sync::Cache as MokaStore;

use crate::text::{owned, push_str, trim, trim_chars};

verus! {

/// What a cached value is derived from.
#[derive(Debug, Clone, PartialEq, Eq)]
pub enum CacheKey {
    /// The CAE classification catalog.
    CaeCatalog,
    /// The documents of one act.
    ActDocuments(String),
}

/// The shared-store key of a cache entry.
pub open spec fn cache_key_text(key: CacheKey) -> Seq<char> {
    match key {
        CacheKey::CaeCatalog => "chancela:v1:cae:catalog"@,
        CacheKey::ActDocuments(id) => "chancela:v1:act-documents:"@ + id@,
    }
}

impl CacheKey {
    /// The shared-store key of this entry.
    pub fn redis_key(&self) -> (r: String)
        ensures
            r@ == cache_key_text(*self),
    {
        match self {
            CacheKey::CaeCatalog => owned("chancela:v1:cae:catalog"),
            CacheKey::ActDocuments(id) => {
                let mut k = owned("chancela:v1:act-documents:");
                push_str(&mut k, id.as_str());
                k
            },
        }
    }
}

/// A cache-aside backend. Every operation may silently fail; a miss is always acceptable.
pub trait Cache: Send + Sync {
    /// Whether `r` is an answer this backend gives to a lookup of `key`. A backend with contents
    /// answers from what it holds at the time of the call, so this is a relation, not a function;
    /// a backend that does not describe its answers may give any.
    open spec fn answers_lookup(&self, key: CacheKey, r: Option<Vec<u8>>) -> bool {
        true
    }

    /// Whether `name` is this backend's name; a backend that does not describe itself may have any.
    open spec fn is_kind(&self, name: Seq<char>) -> bool {
        true
    }

    /// The cached bytes, if present and fresh.
    fn get(&self, key: &CacheKey) -> (r: Option<Vec<u8>>)
        ensures
            self.answers_lookup(*key, r),
    ;

    /// Cache `value` for `ttl`.
    fn set(&self, key: &CacheKey, value: &[u8], ttl: Duration);

    /// Drop the entry.
    fn invalidate(&self, key: &CacheKey);

    /// The backend's name.
    fn kind(&self) -> (r: &'static str)
        ensures
            self.is_kind(r@),
    ;
}

/// The default backend: always misses, never stores.
#[derive(Debug, Default, Clone, Copy)]
pub struct NullCache;

impl Cache for NullCache {
    /// The no-op cache answers every lookup with a miss.
    open spec fn answers_lookup(&self, key: CacheKey, r: Option<Vec<u8>>) -> bool {
        r is None
    }

    open spec fn is_kind(&self, name: Seq<char>) -> bool {
        name == "null"@
    }

    fn get(&self, key: &CacheKey) -> (r: Option<Vec<u8>>)
        ensures
            r is None,
    {
        None
    }

    fn set(&self, key: &CacheKey, value: &[u8], ttl: Duration) {
    }

    fn invalidate(&self, key: &CacheKey) {
    }

    fn kind(&self) -> (r: &'static str)
        ensures
            r@ == "null"@,
    {
        "null"
    }
}

/// A point on the process's monotonic clock.
#[verifier::external_type_specification]
#[verifier::external_body]
pub struct ExInstant(std::time::Instant);

/// `moka`'s bounded, concurrent in-process cache.
#[verifier::external_type_specification]
#[verifier::external_body]
#[verifier::reject_recursive_types(K)]
#[verifier::reject_recursive_types(V)]
#[verifier::reject_recursive_types(S)]
pub struct ExMokaStore<K, V, S>(MokaStore<K, V, S>);

/// How many entries the in-process cache keeps.
pub const MOKA_CACHE_CAPACITY: u64 = 1024;

/// `Instant::now`: the current instant. Nothing is stated of it: it is the clock.
#[verifier::external_body]
fn clock_now() -> (r: Instant) {
    Instant::now()
}

/// `Instant::elapsed`: the time since `origin`. Nothing is stated of it: it reads the clock.
#[verifier::external_body]
fn elapsed_since(origin: &Instant) -> (r: Duration) {
    origin.elapsed()
}

/// `Duration::as_nanos`: a duration in whole nanoseconds. A duration is opaque here, so nothing
/// is stated of the number.
#[verifier::external_body]
fn duration_nanos(d: Duration) -> (r: u128) {
    d.as_nanos()
}

/// `moka::sync::Cache::new`: an empty cache bounded to `capacity` entries.
#[verifier::external_body]
fn moka_new(capacity: u64) -> (r: MokaStore<String, (u128, Vec<u8>)>) {
    MokaStore::new(capacity)
}

/// `moka::sync::Cache::get`: a clone of the value held for `key`, if any. The cache is shared and
/// changed through `&self` (by this and other handles, and by its own eviction), so what it holds
/// is no function of the handle and nothing is stated of the answer.
#[verifier::external_body]
fn moka_get(c: &MokaStore<String, (u128, Vec<u8>)>, key: &String) -> (r: Option<(u128, Vec<u8>)>) {
    c.get(key)
}

/// `moka::sync::Cache::insert`: hold `value` for `key`, replacing what was held. Its bounded
/// admission may still decline or later evict the entry, so nothing is stated.
#[verifier::external_body]
fn moka_insert(c: &MokaStore<String, (u128, Vec<u8>)>, key: String, value: (u128, Vec<u8>)) {
    c.insert(key, value)
}

/// `moka::sync::Cache::invalidate`: discard what is held for `key`.
#[verifier::external_body]
fn moka_invalidate(c: &MokaStore<String, (u128, Vec<u8>)>, key: &String) {
    c.invalidate(key)
}

/// What a read finds in the in-process cache.
#[derive(Debug, Clone, PartialEq, Eq)]
pub enum EntryRead {
    /// Nothing is held for the key.
    Miss,
    /// The entry's lifetime has run out: it is dropped, and the read is a miss.
    Expired,
    /// The entry is live: its bytes are served.
    Fresh(Vec<u8>),
}

/// **The expiry decision** of the in-process cache. Times are nanoseconds on the cache's own
/// clock; an entry holds the instant it expires at. No entry is a miss; an entry whose expiry has
/// been reached (`expires_at <= now`) is expired; otherwise its bytes are served.
pub fn read_entry(entry: Option<(u128, Vec<u8>)>, now: u128) -> (r: EntryRead)
    ensures
        match entry {
            None => r == EntryRead::Miss,
            Some((expires_at, bytes)) => if expires_at <= now {
                r == EntryRead::Expired
            } else {
                r == EntryRead::Fresh(bytes)
            },
        },
{
    match entry {
        None => EntryRead::Miss,
        Some((expires_at, bytes)) => if expires_at <= now {
            EntryRead::Expired
        } else {
            EntryRead::Fresh(bytes)
        },
    }
}

/// The instant an entry stored at `now` for `ttl` nanoseconds expires at; none when that lies
/// past the clock's range (such an entry is not stored).
pub fn expiry_instant(now: u128, ttl: u128) -> (r: Option<u128>)
    ensures
        now + ttl <= u128::MAX ==> r == Some((now + ttl) as u128),
        now + ttl > u128::MAX ==> r is None,
{
    now.checked_add(ttl)
}

/// An in-process cache-aside for the rarely mutated projections, with no network hop. `moka`
/// bounds the number of entries; each entry carries its own expiry on the cache's clock, and an
/// expired entry is dropped lazily when it is read. Handlers share it through [`SharedCache`].
pub struct MokaCache {
    origin: Instant,
    inner: MokaStore<String, (u128, Vec<u8>)>,
}

impl MokaCache {
    /// An empty cache bounded to [`MOKA_CACHE_CAPACITY`] entries.
    pub fn new() -> (r: MokaCache) {
        MokaCache { origin: clock_now(), inner: moka_new(MOKA_CACHE_CAPACITY) }
    }

    /// Now, in nanoseconds on this cache's clock.
    fn now(&self) -> (r: u128) {
        duration_nanos(elapsed_since(&self.origin))
    }
}

impl Cache for MokaCache {
    open spec fn is_kind(&self, name: Seq<char>) -> bool {
        name == "moka"@
    }

    fn get(&self, key: &CacheKey) -> (r: Option<Vec<u8>>) {
        let k = key.redis_key();
        let entry = moka_get(&self.inner, &k);
        let now = self.now();
        match read_entry(entry, now) {
            EntryRead::Miss => None,
            EntryRead::Expired => {
                moka_invalidate(&self.inner, &k);
                None
            },
            EntryRead::Fresh(bytes) => Some(bytes),
        }
    }

    fn set(&self, key: &CacheKey, value: &[u8], ttl: Duration) {
        let now = self.now();
        if let Some(at) = expiry_instant(now, duration_nanos(ttl)) {
            moka_insert(&self.inner, key.redis_key(), (at, vstd::slice::slice_to_vec(value)));
        }
    }

    fn invalidate(&self, key: &CacheKey) {
        moka_invalidate(&self.inner, &key.redis_key());
    }

    fn kind(&self) -> (r: &'static str)
        ensures
            r@ == "moka"@,
    {
        "moka"
    }
}

/// The cache a node uses, shared by every handler.
pub struct SharedCache<C: Cache>(pub Arc<C>);

impl<C: Cache> Clone for SharedCache<C> {
    fn clone(&self) -> (r: Self)
        ensures
            *r.0 == *self.0,
    {
        SharedCache(Arc::clone(&self.0))
    }
}

impl SharedCache<NullCache> {
    /// The no-op cache.
    pub fn null() -> (r: SharedCache<NullCache>)
        ensures
            *r.0 == NullCache,
    {
        SharedCache(Arc::new(NullCache))
    }
}

impl Default for SharedCache<NullCache> {
    /// A node with no cache configured runs with the no-op cache.
    fn default() -> (r: SharedCache<NullCache>)
        ensures
            *r.0 == NullCache,
    {
        SharedCache(Arc::new(NullCache))
    }
}

impl<C: Cache> SharedCache<C> {
    /// Share `cache`.
    pub fn new(cache: C) -> (r: SharedCache<C>)
        ensures
            *r.0 == cache,
    {
        SharedCache(Arc::new(cache))
    }

    /// The wrapped backend's lookup: the backend's own answer.
    pub fn get(&self, key: &CacheKey) -> (r: Option<Vec<u8>>)
        ensures
            (*self.0).answers_lookup(*key, r),
    {
        self.0.get(key)
    }

    /// The wrapped backend's store.
    pub fn set(&self, key: &CacheKey, value: &[u8], ttl: Duration) {
        self.0.set(key, value, ttl)
    }

    /// The wrapped backend's invalidation.
    pub fn invalidate(&self, key: &CacheKey) {
        self.0.invalidate(key)
    }

    /// The wrapped backend's name.
    pub fn kind(&self) -> (r: &'static str)
        ensures
            (*self.0).is_kind(r@),
    {
        self.0.kind()
    }
}

/// The backend a node runs with.
#[derive(Debug, Clone, Copy, PartialEq, Eq, Structural)]
pub enum CacheBackend {
    /// The shared store (its address is configured and its client initialised).
    Redis,
    /// The in-process cache.
    Moka,
    /// No cache.
    Null,
}

/// **The cache backend choice**: a configured shared store whose client initialised wins; else the
/// in-process cache when `CHANCELA_CACHE` is `moka` (trimmed); else no cache.
pub fn select_cache_backend(shared_store_ready: bool, cache_setting: &Option<String>) -> (r: CacheBackend)
    ensures
        r == (if shared_store_ready {
            CacheBackend::Redis
        } else if cache_setting matches Some(s) && trim(s@) == "moka"@ {
            CacheBackend::Moka
        } else {
            CacheBackend::Null
        }),
{
    if shared_store_ready {
        return CacheBackend::Redis;
    }
    match cache_setting {
        Some(s) => {
            let t = trim_chars(s.as_str());
            let m = crate::text::chars_of("moka");
            if crate::text::seq_eq(&t, &m) {
                CacheBackend::Moka
            } else {
                CacheBackend::Null
            }
        },
        None => CacheBackend::Null,
    }
}

} // verus!
