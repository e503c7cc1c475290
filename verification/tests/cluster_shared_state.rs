use std::collections::HashMap;
use std::sync::{Arc, Mutex};
use std::time::Duration;

use chancela_api::cluster_shared_state::{
    counter_value, expiry_secs, global_limit_blocks, peek_outcome, ratelimit_key, record_outcome, redis_url_from,
    session_key, session_lookup_from, uuid_to_string, InvalidationBus, InvalidationEvent, LocalOnlyRateLimiter,
    LocalOnlySessionStore, RateLimitOutcome, RateLimiter, SessionLookup, SessionStore, SharedClusterState,
    SharedRateLimiter, SharedSessionStore, GLOBAL_SIGNIN_FAILURE_CAP, INVALIDATION_CHANNEL,
};
use uuid::Uuid;

fn new_user() -> u128 {
    Uuid::new_v4().as_u128()
}

#[test]
fn local_session_store_is_a_noop_defer_to_local_map() {
    let store = LocalOnlySessionStore;
    assert_eq!(store.kind(), "local");
    let uid = new_user();
    store.put("tok", uid, Duration::from_secs(60));
    assert_eq!(store.resolve("tok", Duration::from_secs(60)), SessionLookup::NotShared);
    store.revoke("tok");
    assert_eq!(store.resolve("tok", Duration::from_secs(60)), SessionLookup::NotShared);
}

#[test]
fn shared_session_store_defaults_to_local_noop() {
    let shared = SharedSessionStore::default();
    assert_eq!(shared.kind(), "local");
    assert_eq!(shared.resolve("x", Duration::from_secs(1)), SessionLookup::NotShared);
}

/// Two handles over one shared map stand in for two nodes pointed at one shared store.
#[derive(Debug, Clone, Default)]
struct FakeSharedSessions {
    map: Arc<Mutex<HashMap<String, u128>>>,
}

impl SessionStore for FakeSharedSessions {
    fn put(&self, token: &str, user_id: u128, _ttl: Duration) {
        self.map.lock().unwrap().insert(token.to_owned(), user_id);
    }
    fn resolve(&self, token: &str, _ttl: Duration) -> SessionLookup {
        match self.map.lock().unwrap().get(token) {
            Some(user_id) => SessionLookup::Found { user_id: *user_id },
            None => SessionLookup::NotFound,
        }
    }
    fn revoke(&self, token: &str) {
        self.map.lock().unwrap().remove(token);
    }
    fn kind(&self) -> &'static str {
        "fake"
    }
}

#[test]
fn shared_session_visible_across_nodes_and_revoke_is_cluster_wide() {
    let node_a = FakeSharedSessions::default();
    let node_b = node_a.clone();
    let uid = new_user();
    node_a.put("tok", uid, Duration::from_secs(60));
    assert_eq!(node_b.resolve("tok", Duration::from_secs(60)), SessionLookup::Found { user_id: uid });
    node_a.revoke("tok");
    assert_eq!(node_b.resolve("tok", Duration::from_secs(60)), SessionLookup::NotFound);
}

#[test]
fn a_session_minted_on_the_old_leader_is_honored_after_failover() {
    let old_leader = SharedSessionStore::new(FakeSharedSessions::default());
    let new_leader = old_leader.clone();
    let uid = new_user();
    let ttl = Duration::from_secs(60);
    old_leader.put("session-tok", uid, ttl);
    assert_eq!(new_leader.resolve("session-tok", ttl), SessionLookup::Found { user_id: uid });
    new_leader.revoke("session-tok");
    assert_eq!(old_leader.resolve("session-tok", ttl), SessionLookup::NotFound);
    assert_eq!(new_leader.kind(), "fake");
}

#[derive(Debug)]
struct FailingSessions;

impl SessionStore for FailingSessions {
    fn put(&self, _t: &str, _u: u128, _ttl: Duration) {}
    fn resolve(&self, _t: &str, _ttl: Duration) -> SessionLookup {
        SessionLookup::Unavailable
    }
    fn revoke(&self, _t: &str) {}
    fn kind(&self) -> &'static str {
        "failing"
    }
}

#[test]
fn session_lookup_fails_closed_on_backend_error() {
    let store = FailingSessions;
    assert_eq!(store.resolve("tok", Duration::from_secs(60)), SessionLookup::Unavailable);
    assert!(!matches!(store.resolve("tok", Duration::from_secs(60)), SessionLookup::Found { .. }));
}

#[test]
fn a_stored_session_value_is_found_only_when_it_is_a_uuid() {
    let uid = Uuid::new_v4();
    assert_eq!(session_lookup_from(Err(())), SessionLookup::Unavailable);
    assert_eq!(session_lookup_from(Ok(None)), SessionLookup::NotFound);
    assert_eq!(
        session_lookup_from(Ok(Some(format!(" {uid} ")))),
        SessionLookup::Found { user_id: uid.as_u128() }
    );
    assert_eq!(session_lookup_from(Ok(Some("not-a-uuid".to_owned()))), SessionLookup::Unavailable);
}

#[test]
fn local_rate_limiter_is_a_noop() {
    let limiter = LocalOnlyRateLimiter;
    assert_eq!(limiter.kind(), "local");
    assert_eq!(limiter.record_failure("k", Duration::from_secs(60)), RateLimitOutcome::NotShared);
    assert_eq!(limiter.peek("k"), RateLimitOutcome::NotShared);
    let shared = SharedRateLimiter::default();
    assert_eq!(shared.kind(), "local");
    assert_eq!(shared.peek("k"), RateLimitOutcome::NotShared);
}

#[derive(Debug, Clone, Default)]
struct FakeSharedCounter {
    map: Arc<Mutex<HashMap<String, u32>>>,
}

impl RateLimiter for FakeSharedCounter {
    fn record_failure(&self, key: &str, _window: Duration) -> RateLimitOutcome {
        let mut map = self.map.lock().unwrap();
        let count = map.entry(key.to_owned()).or_insert(0);
        *count += 1;
        RateLimitOutcome::Count(*count)
    }
    fn peek(&self, key: &str) -> RateLimitOutcome {
        RateLimitOutcome::Count(self.map.lock().unwrap().get(key).copied().unwrap_or(0))
    }
    fn clear(&self, key: &str) {
        self.map.lock().unwrap().remove(key);
    }
    fn kind(&self) -> &'static str {
        "fake"
    }
}

#[test]
fn shared_counter_increments_across_simulated_nodes() {
    let node_a = FakeSharedCounter::default();
    let node_b = node_a.clone();
    assert_eq!(node_a.record_failure("user:1", Duration::from_secs(60)), RateLimitOutcome::Count(1));
    assert_eq!(node_b.record_failure("user:1", Duration::from_secs(60)), RateLimitOutcome::Count(2));
    assert_eq!(node_a.peek("user:1"), RateLimitOutcome::Count(2));
    node_b.clear("user:1");
    assert_eq!(node_a.peek("user:1"), RateLimitOutcome::Count(0));
}

#[test]
fn global_limit_blocks_at_or_above_cap_only() {
    assert!(!global_limit_blocks(&RateLimitOutcome::Count(49), 50));
    assert!(global_limit_blocks(&RateLimitOutcome::Count(50), 50));
    assert!(global_limit_blocks(&RateLimitOutcome::Count(51), 50));
    assert!(!global_limit_blocks(&RateLimitOutcome::NotShared, 50));
    assert!(!global_limit_blocks(&RateLimitOutcome::Unavailable, 50));
    assert_eq!(GLOBAL_SIGNIN_FAILURE_CAP, 50);
}

#[derive(Debug)]
struct FailingCounter;

impl RateLimiter for FailingCounter {
    fn record_failure(&self, _key: &str, _window: Duration) -> RateLimitOutcome {
        RateLimitOutcome::Unavailable
    }
    fn peek(&self, _key: &str) -> RateLimitOutcome {
        RateLimitOutcome::Unavailable
    }
    fn clear(&self, _key: &str) {}
    fn kind(&self) -> &'static str {
        "failing"
    }
}

#[test]
fn rate_limit_fails_closed_not_to_unlimited() {
    let limiter = FailingCounter;
    assert_eq!(limiter.peek("k"), RateLimitOutcome::Unavailable);
    assert!(!global_limit_blocks(&limiter.peek("k"), 50));
    assert_ne!(limiter.peek("k"), RateLimitOutcome::Count(0));
    assert_eq!(peek_outcome(Err(())), RateLimitOutcome::Unavailable);
    assert_eq!(record_outcome(Err(())), RateLimitOutcome::Unavailable);
}

#[test]
fn counters_read_from_the_store_never_go_negative() {
    assert_eq!(peek_outcome(Ok(None)), RateLimitOutcome::Count(0));
    assert_eq!(peek_outcome(Ok(Some(7))), RateLimitOutcome::Count(7));
    assert_eq!(peek_outcome(Ok(Some(-3))), RateLimitOutcome::Count(0));
    assert_eq!(record_outcome(Ok(4)), RateLimitOutcome::Count(4));
    assert_eq!(counter_value(-1), 0);
    assert_eq!(counter_value(12), 12);
}

#[test]
fn shared_store_keys_and_expiries() {
    assert_eq!(session_key("abc"), "chancela:v1:session:abc");
    assert_eq!(ratelimit_key("user:1"), "chancela:v1:ratelimit:user:1");
    assert_eq!(INVALIDATION_CHANNEL, "chancela:v1:invalidate");
    assert_eq!(expiry_secs(0), 1);
    assert_eq!(expiry_secs(90), 90);
}

#[test]
fn invalidation_event_encode_parse_round_trip() {
    let uid = new_user();
    for event in [
        InvalidationEvent::SessionRevoked { token: "abc-123".to_owned() },
        InvalidationEvent::RoleChanged { user_id: uid },
    ] {
        let wire = event.encode();
        assert_eq!(InvalidationEvent::parse(&wire), Some(event), "wire payload {wire:?} must round-trip");
    }
}

#[test]
fn invalidation_parse_rejects_garbage_and_empty() {
    assert_eq!(InvalidationEvent::parse("nonsense"), None);
    assert_eq!(InvalidationEvent::parse("session-revoked:"), None);
    assert_eq!(InvalidationEvent::parse("role-changed:not-a-uuid"), None);
    assert_eq!(InvalidationEvent::parse(""), None);
}

#[test]
fn role_change_payload_carries_the_hyphenated_uuid() {
    let uid = Uuid::parse_str("67e55044-10b1-426f-9247-bb680e5fe0c8").unwrap();
    let wire = InvalidationEvent::RoleChanged { user_id: uid.as_u128() }.encode();
    assert_eq!(wire, "role-changed:67e55044-10b1-426f-9247-bb680e5fe0c8");
    assert_eq!(
        InvalidationEvent::parse(" role-changed: 67E55044-10B1-426F-9247-BB680E5FE0C8 "),
        None,
        "the prefix must lead the payload"
    );
    assert_eq!(
        InvalidationEvent::parse("role-changed: 67E55044-10B1-426F-9247-BB680E5FE0C8 "),
        Some(InvalidationEvent::RoleChanged { user_id: uid.as_u128() })
    );
    assert_eq!(
        InvalidationEvent::parse("session-revoked:  tok  "),
        Some(InvalidationEvent::SessionRevoked { token: "tok".to_owned() })
    );
}

#[test]
fn uuid_text_matches_the_uuid_crate() {
    for _ in 0..16 {
        let u = Uuid::new_v4();
        assert_eq!(uuid_to_string(u.as_u128()), u.to_string());
    }
    assert_eq!(uuid_to_string(0), "00000000-0000-0000-0000-000000000000");
}

#[derive(Debug, Default)]
struct RecordingBus {
    published: Mutex<Vec<InvalidationEvent>>,
}

impl InvalidationBus for RecordingBus {
    fn publish(&self, event: &InvalidationEvent) {
        self.published.lock().unwrap().push(event.clone());
    }
    fn subscribe_dsn(&self) -> Option<String> {
        None
    }
    fn kind(&self) -> &'static str {
        "recording"
    }
}

#[test]
fn revoke_and_role_change_are_published_for_other_nodes() {
    let bus = RecordingBus::default();
    let uid = new_user();
    bus.publish(&InvalidationEvent::SessionRevoked { token: "tok".to_owned() });
    bus.publish(&InvalidationEvent::RoleChanged { user_id: uid });
    let published = bus.published.lock().unwrap();
    assert_eq!(published.len(), 2);
    assert_eq!(published[0], InvalidationEvent::SessionRevoked { token: "tok".to_owned() });
    assert_eq!(published[1], InvalidationEvent::RoleChanged { user_id: uid });
}

#[test]
fn shared_cluster_state_defaults_are_all_local_noops() {
    let state = SharedClusterState::default();
    assert_eq!(state.sessions.kind(), "local");
    assert_eq!(state.signin_limiter.kind(), "local");
    assert_eq!(state.invalidation.kind(), "local");
    assert!(state.invalidation.subscribe_dsn().is_none());
}

#[test]
fn redis_url_prefers_the_address_file_then_the_environment() {
    assert_eq!(
        redis_url_from(Some(" redis://file:6379 \n".to_owned()), Some("redis://env".to_owned())).as_deref(),
        Some("redis://file:6379")
    );
    assert_eq!(redis_url_from(Some("  ".to_owned()), Some(" redis://env ".to_owned())).as_deref(), Some("redis://env"));
    assert_eq!(redis_url_from(None, Some(String::new())), None);
    assert_eq!(redis_url_from(None, None), None);
}

#[test]
fn a_shared_limiter_passes_every_call_to_its_backend_unchanged() {
    let backend = FakeSharedCounter::default();
    let shared = SharedRateLimiter::new(backend.clone());
    assert_eq!(shared.record_failure("acct", Duration::from_secs(60)), RateLimitOutcome::Count(1));
    assert_eq!(RateLimiter::record_failure(&shared, "acct", Duration::from_secs(60)), RateLimitOutcome::Count(2));
    assert_eq!(backend.peek("acct"), RateLimitOutcome::Count(2));
    assert_eq!(RateLimiter::peek(&shared, "acct"), backend.peek("acct"));
    shared.clear("acct");
    assert_eq!(backend.peek("acct"), RateLimitOutcome::Count(0));
    assert_eq!(RateLimiter::kind(&shared), backend.kind());
}
