//! **Cluster-shared session, sign-in rate-limit and invalidation state.**
//!
//! A single node keeps sessions and sign-in failure counts in its own memory; a cluster shares them
//! through a backend so that a session minted on one node is honoured on another and an attacker
//! cannot multiply their attempts by spraying nodes. The local-only implementations are no-ops that
//! tell the caller to keep using its own map. Every shared lookup fails closed: a session that
//! cannot be verified is `Unavailable`, never `Found`, and a counter that cannot be read is
//! `Unavailable`, never `Count(0)`.
//!
//! Cross-node invalidation travels as a short text payload (`session-revoked:{token}`,
//! `role-changed:{user id}`); user ids are carried as their 128-bit value.
use vstd::prelude::*;

use std::sync::Arc;
use std::time::Duration;

use crate::text::{owned, push_str, trim, trim_end, trim_start, trim_chars, string_from_chars, has_prefix};

verus! {

// =================================================================================================
// User ids as text
// =================================================================================================

/// The lowercase hexadecimal digit of `n < 16`.
pub open spec fn hex_digit_lower(n: nat) -> char {
    if n < 10 {
        (('0' as u32) + n) as char
    } else {
        (('a' as u32) + n - 10) as char
    }
}

/// The `k`-th hexadecimal digit (most significant first) of a 128-bit value.
pub open spec fn nibble(u: u128, k: int) -> nat {
    ((u as nat) / vstd::arithmetic::power2::pow2((4 * (31 - k)) as nat) % 16) as nat
}

/// The hyphenated lowercase text of a UUID (`8-4-4-4-12` hex digits), as `uuid`'s `Display` writes
/// it.
pub open spec fn uuid_text(u: u128) -> Seq<char> {
    Seq::new(
        36,
        |i: int|
            if i == 8 || i == 13 || i == 18 || i == 23 {
                '-'
            } else {
                let k = if i < 8 {
                    i
                } else if i < 13 {
                    i - 1
                } else if i < 18 {
                    i - 2
                } else if i < 23 {
                    i - 3
                } else {
                    i - 4
                };
                hex_digit_lower(nibble(u, k))
            },
    )
}

/// The value a UUID text parses to, or `None`.
pub uninterp spec fn uuid_parsed(text: Seq<char>) -> Option<u128>;

/// `uuid::Uuid::parse_str`, answering the 128-bit value. The contract names the outcome and states
/// what the crate documents of the hyphenated form: the text `Display` writes for a value parses
/// back to that value.
#[verifier::external_body]
pub(crate) fn parse_uuid(text: &str) -> (r: Option<u128>)
    ensures
        r == uuid_parsed(text@),
        forall|u: u128| text@ == uuid_text(u) ==> r == Some(u),
{
    uuid::Uuid::parse_str(text).ok().map(|u| u.as_u128())
}

proof fn lemma_pow2_shift(k: int)
    requires
        0 <= k < 32,
    ensures
        vstd::arithmetic::power2::pow2((4 * (31 - k)) as nat) > 0,
{
    vstd::arithmetic::power2::lemma_pow2_pos((4 * (31 - k)) as nat);
}

fn hex_char_lower(n: u8) -> (c: char)
    requires
        n < 16,
    ensures
        c == hex_digit_lower(n as nat),
{
    if n < 10 {
        (48u8 + n) as char
    } else {
        (87u8 + n) as char
    }
}

/// The hyphenated lowercase text of a UUID.
pub fn uuid_to_string(u: u128) -> (r: String)
    ensures
        r@ == uuid_text(u),
{
    let mut digits: Vec<char> = Vec::new();
    let mut k: usize = 0;
    let mut rest: u128 = u;
    // Collect the 32 digits least significant first.
    let mut rev: Vec<char> = Vec::new();
    proof {
        vstd::arithmetic::power2::lemma2_to64();
        assert(vstd::arithmetic::power2::pow2((4 * k) as nat) == 1);
        vstd::arithmetic::div_mod::lemma_div_basics(u as int);
    }
    while k < 32
        invariant
            0 <= k <= 32,
            rev@.len() == k,
            rest as nat == (u as nat) / vstd::arithmetic::power2::pow2((4 * k) as nat),
            forall|j: int| 0 <= j < k ==> #[trigger] rev@[j] == hex_digit_lower(nibble(u, 31 - j)),
        decreases 32 - k,
    {
        let d = (rest % 16) as u8;
        proof {
            vstd::arithmetic::power2::lemma_pow2_adds((4 * k) as nat, 4);
            vstd::arithmetic::power2::lemma2_to64();
            vstd::arithmetic::power2::lemma_pow2_pos((4 * k) as nat);
            vstd::arithmetic::div_mod::lemma_div_denominator(
                u as int,
                vstd::arithmetic::power2::pow2((4 * k) as nat) as int,
                16,
            );
            assert(nibble(u, 31 - k as int) == ((u as nat) / vstd::arithmetic::power2::pow2((4 * k) as nat)
                % 16) as nat);
        }
        rev.push(hex_char_lower(d));
        rest = rest / 16;
        k += 1;
    }
    let mut i: usize = 0;
    while i < 32
        invariant
            0 <= i <= 32,
            rev@.len() == 32,
            forall|j: int| 0 <= j < 32 ==> #[trigger] rev@[j] == hex_digit_lower(nibble(u, 31 - j)),
            digits@.len() == i,
            forall|j: int| 0 <= j < i ==> #[trigger] digits@[j] == hex_digit_lower(nibble(u, j)),
        decreases 32 - i,
    {
        digits.push(rev[31 - i]);
        i += 1;
    }
    let mut out: Vec<char> = Vec::new();
    let mut j: usize = 0;
    while j < 32
        invariant
            0 <= j <= 32,
            digits@.len() == 32,
            forall|m: int| 0 <= m < 32 ==> #[trigger] digits@[m] == hex_digit_lower(nibble(u, m)),
            out@.len() == j + (if j > 20 {
                4
            } else if j > 16 {
                3
            } else if j > 12 {
                2
            } else if j > 8 {
                1
            } else {
                0int
            }),
            forall|p: int| 0 <= p < out@.len() ==> #[trigger] out@[p] == uuid_text(u)[p],
        decreases 32 - j,
    {
        if j == 8 || j == 12 || j == 16 || j == 20 {
            out.push('-');
        }
        out.push(digits[j]);
        j += 1;
    }
    assert(out@ =~= uuid_text(u));
    string_from_chars(&out)
}

// =================================================================================================
// Sessions
// =================================================================================================

/// What a shared session lookup answered.
#[derive(Debug, Clone, Copy, PartialEq, Eq, Structural)]
pub enum SessionLookup {
    /// No shared store is configured: the caller uses its own in-memory map.
    NotShared,
    /// The token is a live session of this user.
    Found { user_id: u128 },
    /// The shared store answered and the token is unknown or expired.
    NotFound,
    /// The shared store could not be reached or answered garbage: fail closed, never grant.
    Unavailable,
}

/// A cluster-wide session store.
pub trait SessionStore: Send + Sync {
    /// Whether `r` is an answer this store gives when resolving `token`. A shared store answers
    /// from what it holds at the time of the call, so this is a relation; a store that does not
    /// describe its answers may give any.
    open spec fn answers_resolve(&self, token: Seq<char>, r: SessionLookup) -> bool {
        true
    }

    /// Whether `name` is this backend's name; a backend that does not describe itself may have any.
    open spec fn is_kind(&self, name: Seq<char>) -> bool {
        true
    }

    /// Record a session for `user_id`, expiring after `ttl`.
    fn put(&self, token: &str, user_id: u128, ttl: Duration);

    /// Resolve a token, sliding its expiry on success.
    fn resolve(&self, token: &str, ttl: Duration) -> (r: SessionLookup)
        ensures
            self.answers_resolve(token@, r),
    ;

    /// Revoke a session cluster-wide.
    fn revoke(&self, token: &str);

    /// The backend's name.
    fn kind(&self) -> (r: &'static str)
        ensures
            self.is_kind(r@),
    ;
}

/// The single-node default: every operation is a no-op and every lookup says "not shared".
#[derive(Debug, Default, Clone, Copy)]
pub struct LocalOnlySessionStore;

impl SessionStore for LocalOnlySessionStore {
    /// Every lookup says "not shared".
    open spec fn answers_resolve(&self, token: Seq<char>, r: SessionLookup) -> bool {
        r == SessionLookup::NotShared
    }

    open spec fn is_kind(&self, name: Seq<char>) -> bool {
        name == "local"@
    }

    fn put(&self, token: &str, user_id: u128, ttl: Duration) {
    }

    fn resolve(&self, token: &str, ttl: Duration) -> (r: SessionLookup)
        ensures
            r == SessionLookup::NotShared,
    {
        SessionLookup::NotShared
    }

    fn revoke(&self, token: &str) {
    }

    fn kind(&self) -> (r: &'static str)
        ensures
            r@ == "local"@,
    {
        "local"
    }
}

/// The session store a node shares with its cluster (one handle per node over one backend).
pub struct SharedSessionStore<S: SessionStore>(pub Arc<S>);

impl<S: SessionStore> Clone for SharedSessionStore<S> {
    fn clone(&self) -> (r: Self)
        ensures
            *r.0 == *self.0,
    {
        SharedSessionStore(Arc::clone(&self.0))
    }
}

impl<S: SessionStore> SharedSessionStore<S> {
    /// Share `store`.
    pub fn new(store: S) -> (r: SharedSessionStore<S>)
        ensures
            *r.0 == store,
    {
        SharedSessionStore(Arc::new(store))
    }

    /// The shared backend's `put`.
    pub fn put(&self, token: &str, user_id: u128, ttl: Duration) {
        self.0.put(token, user_id, ttl)
    }

    /// The shared backend's `resolve`: the backend's own answer.
    pub fn resolve(&self, token: &str, ttl: Duration) -> (r: SessionLookup)
        ensures
            (*self.0).answers_resolve(token@, r),
    {
        self.0.resolve(token, ttl)
    }

    /// The shared backend's `revoke`.
    pub fn revoke(&self, token: &str) {
        self.0.revoke(token)
    }

    /// The shared backend's name.
    pub fn kind(&self) -> (r: &'static str)
        ensures
            (*self.0).is_kind(r@),
    {
        self.0.kind()
    }
}

impl SharedSessionStore<LocalOnlySessionStore> {
    /// The single-node default.
    pub fn local() -> (r: SharedSessionStore<LocalOnlySessionStore>)
        ensures
            *r.0 == LocalOnlySessionStore,
    {
        SharedSessionStore(Arc::new(LocalOnlySessionStore))
    }
}

impl Default for SharedSessionStore<LocalOnlySessionStore> {
    fn default() -> (r: SharedSessionStore<LocalOnlySessionStore>)
        ensures
            *r.0 == LocalOnlySessionStore,
    {
        SharedSessionStore::local()
    }
}

/// The key of a session in the shared store.
pub open spec fn session_key_text(token: Seq<char>) -> Seq<char> {
    "chancela:v1:session:"@ + token
}

/// The key of a session in the shared store.
pub fn session_key(token: &str) -> (r: String)
    ensures
        r@ == session_key_text(token@),
{
    let mut k = owned("chancela:v1:session:");
    push_str(&mut k, token);
    k
}

/// The expiry, in whole seconds, that a shared entry is given for a lifetime of `secs` seconds:
/// never less than one second.
pub fn expiry_secs(secs: u64) -> (r: u64)
    ensures
        r == (if secs < 1 {
            1
        } else {
            secs
        }),
{
    if secs < 1 {
        1
    } else {
        secs
    }
}

/// What a shared lookup answers given what the store returned: an unreachable store is
/// `Unavailable`; no value is `NotFound`; a value is the session's user only when it parses (after
/// trimming) as a UUID, and `Unavailable` otherwise.
pub fn session_lookup_from(stored: Result<Option<String>, ()>) -> (r: SessionLookup)
    ensures
        match stored {
            Err(_) => r == SessionLookup::Unavailable,
            Ok(None) => r == SessionLookup::NotFound,
            Ok(Some(v)) => match uuid_parsed(trim(v@)) {
                Some(u) => r == SessionLookup::Found { user_id: u },
                None => r == SessionLookup::Unavailable,
            },
        },
{
    match stored {
        Err(_) => SessionLookup::Unavailable,
        Ok(None) => SessionLookup::NotFound,
        Ok(Some(v)) => {
            let t = trim_chars(v.as_str());
            let ts = string_from_chars(&t);
            match parse_uuid(ts.as_str()) {
                Some(u) => SessionLookup::Found { user_id: u },
                None => SessionLookup::Unavailable,
            }
        },
    }
}

// =================================================================================================
// Sign-in rate limit
// =================================================================================================

/// What a shared sign-in failure counter answered.
#[derive(Debug, Clone, Copy, PartialEq, Eq, Structural)]
pub enum RateLimitOutcome {
    /// No shared counter is configured: the caller keeps its per-node backoff.
    NotShared,
    /// The cluster-wide failure count in the current window.
    Count(u32),
    /// The shared counter could not be reached: fail closed to the per-node floor.
    Unavailable,
}

/// A cluster-wide sign-in failure counter.
pub trait RateLimiter: Send + Sync {
    /// Whether `r` is an answer this counter gives when recording a failure for `key`. A shared
    /// counter answers from its state at the time of the call, so this is a relation; a counter
    /// that does not describe its answers may give any.
    open spec fn answers_record(&self, key: Seq<char>, r: RateLimitOutcome) -> bool {
        true
    }

    /// Whether `r` is an answer this counter gives when reading the count of `key` (a relation,
    /// as for [`RateLimiter::answers_record`]).
    open spec fn answers_peek(&self, key: Seq<char>, r: RateLimitOutcome) -> bool {
        true
    }

    /// Whether `name` is this backend's name; a backend that does not describe itself may have any.
    open spec fn is_kind(&self, name: Seq<char>) -> bool {
        true
    }

    /// Count one more failure for `key` within a window of `window`.
    fn record_failure(&self, key: &str, window: Duration) -> (r: RateLimitOutcome)
        ensures
            self.answers_record(key@, r),
    ;

    /// The current failure count for `key`.
    fn peek(&self, key: &str) -> (r: RateLimitOutcome)
        ensures
            self.answers_peek(key@, r),
    ;

    /// Clear the count for `key` (after a successful sign-in).
    fn clear(&self, key: &str);

    /// The backend's name.
    fn kind(&self) -> (r: &'static str)
        ensures
            self.is_kind(r@),
    ;
}

/// Failures per account across the cluster at which sign-in is refused.
pub const GLOBAL_SIGNIN_FAILURE_CAP: u32 = 50;

/// **Whether the cluster-wide count blocks sign-in**: only a real count at or above the cap does.
/// `NotShared` and `Unavailable` never block on their own; the caller keeps its local floor.
pub fn global_limit_blocks(outcome: &RateLimitOutcome, cap: u32) -> (r: bool)
    ensures
        r == (outcome matches RateLimitOutcome::Count(n) && n >= cap),
{
    match outcome {
        RateLimitOutcome::Count(n) => *n >= cap,
        _ => false,
    }
}

/// The single-node default: failures are not shared.
#[derive(Debug, Default, Clone, Copy)]
pub struct LocalOnlyRateLimiter;

impl RateLimiter for LocalOnlyRateLimiter {
    /// Nothing is shared: every answer is "not shared".
    open spec fn answers_record(&self, key: Seq<char>, r: RateLimitOutcome) -> bool {
        r == RateLimitOutcome::NotShared
    }

    open spec fn answers_peek(&self, key: Seq<char>, r: RateLimitOutcome) -> bool {
        r == RateLimitOutcome::NotShared
    }

    open spec fn is_kind(&self, name: Seq<char>) -> bool {
        name == "local"@
    }

    fn record_failure(&self, key: &str, window: Duration) -> (r: RateLimitOutcome)
        ensures
            r == RateLimitOutcome::NotShared,
    {
        RateLimitOutcome::NotShared
    }

    fn peek(&self, key: &str) -> (r: RateLimitOutcome)
        ensures
            r == RateLimitOutcome::NotShared,
    {
        RateLimitOutcome::NotShared
    }

    fn clear(&self, key: &str) {
    }

    fn kind(&self) -> (r: &'static str)
        ensures
            r@ == "local"@,
    {
        "local"
    }
}

/// The sign-in failure counter a node shares with its cluster (one handle per node over one
/// backend).
pub struct SharedRateLimiter<L: RateLimiter>(pub Arc<L>);

impl<L: RateLimiter> Clone for SharedRateLimiter<L> {
    fn clone(&self) -> (r: Self)
        ensures
            *r.0 == *self.0,
    {
        SharedRateLimiter(Arc::clone(&self.0))
    }
}

impl<L: RateLimiter> SharedRateLimiter<L> {
    /// Share `limiter`.
    pub fn new(limiter: L) -> (r: SharedRateLimiter<L>)
        ensures
            *r.0 == limiter,
    {
        SharedRateLimiter(Arc::new(limiter))
    }

    /// The shared backend's `record_failure`: the backend's own answer.
    pub fn record_failure(&self, key: &str, window: Duration) -> (r: RateLimitOutcome)
        ensures
            (*self.0).answers_record(key@, r),
    {
        self.0.record_failure(key, window)
    }

    /// The shared backend's `peek`: the backend's own answer.
    pub fn peek(&self, key: &str) -> (r: RateLimitOutcome)
        ensures
            (*self.0).answers_peek(key@, r),
    {
        self.0.peek(key)
    }

    /// The shared backend's `clear`.
    pub fn clear(&self, key: &str) {
        self.0.clear(key)
    }

    /// The shared backend's name.
    pub fn kind(&self) -> (r: &'static str)
        ensures
            (*self.0).is_kind(r@),
    {
        self.0.kind()
    }
}

/// The shared handle is itself a counter: every call goes to the backend with the same arguments
/// and answers what the backend answers.
impl<L: RateLimiter> RateLimiter for SharedRateLimiter<L> {
    open spec fn answers_record(&self, key: Seq<char>, r: RateLimitOutcome) -> bool {
        (*self.0).answers_record(key, r)
    }

    open spec fn answers_peek(&self, key: Seq<char>, r: RateLimitOutcome) -> bool {
        (*self.0).answers_peek(key, r)
    }

    open spec fn is_kind(&self, name: Seq<char>) -> bool {
        (*self.0).is_kind(name)
    }

    fn record_failure(&self, key: &str, window: Duration) -> (r: RateLimitOutcome) {
        self.0.record_failure(key, window)
    }

    fn peek(&self, key: &str) -> (r: RateLimitOutcome) {
        self.0.peek(key)
    }

    fn clear(&self, key: &str) {
        self.0.clear(key)
    }

    fn kind(&self) -> (r: &'static str) {
        self.0.kind()
    }
}

/// **Sharing a counter changes none of its answers**: a shared handle over `limiter` (as
/// [`SharedRateLimiter::new`] makes one) answers every record, read and name exactly as `limiter`
/// does, for every key.
pub proof fn lemma_shared_limiter_answers_as_its_backend<L: RateLimiter>(shared: SharedRateLimiter<L>, limiter: L)
    requires
        *shared.0 == limiter,
    ensures
        forall|key: Seq<char>, r: RateLimitOutcome| #[trigger] shared.answers_record(key, r) <==> limiter.answers_record(key, r),
        forall|key: Seq<char>, r: RateLimitOutcome| #[trigger] shared.answers_peek(key, r) <==> limiter.answers_peek(key, r),
        forall|name: Seq<char>| #[trigger] shared.is_kind(name) <==> limiter.is_kind(name),
{
}

impl SharedRateLimiter<LocalOnlyRateLimiter> {
    /// The single-node default.
    pub fn local() -> (r: SharedRateLimiter<LocalOnlyRateLimiter>)
        ensures
            *r.0 == LocalOnlyRateLimiter,
    {
        SharedRateLimiter(Arc::new(LocalOnlyRateLimiter))
    }
}

impl Default for SharedRateLimiter<LocalOnlyRateLimiter> {
    fn default() -> (r: SharedRateLimiter<LocalOnlyRateLimiter>)
        ensures
            *r.0 == LocalOnlyRateLimiter,
    {
        SharedRateLimiter::local()
    }
}

/// The key of a counter in the shared store.
pub open spec fn ratelimit_key_text(key: Seq<char>) -> Seq<char> {
    "chancela:v1:ratelimit:"@ + key
}

/// The key of a counter in the shared store.
pub fn ratelimit_key(key: &str) -> (r: String)
    ensures
        r@ == ratelimit_key_text(key@),
{
    let mut k = owned("chancela:v1:ratelimit:");
    push_str(&mut k, key);
    k
}

/// A stored counter value as a count: negative values read as zero; the value is then taken to
/// 32 bits as a cast does.
pub fn counter_value(count: i64) -> (r: u32)
    ensures
        r == (if count < 0 {
            0
        } else {
            count
        }) as u32,
{
    let c: i64 = if count < 0 {
        0
    } else {
        count
    };
    c as u32
}

/// What a shared counter read answers given what the store returned: unreachable is
/// `Unavailable`, a missing counter is `Count(0)`.
pub fn peek_outcome(stored: Result<Option<i64>, ()>) -> (r: RateLimitOutcome)
    ensures
        match stored {
            Err(_) => r == RateLimitOutcome::Unavailable,
            Ok(None) => r == RateLimitOutcome::Count(0),
            Ok(Some(c)) => r == RateLimitOutcome::Count((if c < 0 {
                0
            } else {
                c
            }) as u32),
        },
{
    match stored {
        Err(_) => RateLimitOutcome::Unavailable,
        Ok(None) => RateLimitOutcome::Count(0),
        Ok(Some(c)) => RateLimitOutcome::Count(counter_value(c)),
    }
}

/// What recording a failure answers given the incremented count (or an unreachable store).
pub fn record_outcome(incremented: Result<i64, ()>) -> (r: RateLimitOutcome)
    ensures
        match incremented {
            Err(_) => r == RateLimitOutcome::Unavailable,
            Ok(c) => r == RateLimitOutcome::Count((if c < 0 {
                0
            } else {
                c
            }) as u32),
        },
{
    match incremented {
        Err(_) => RateLimitOutcome::Unavailable,
        Ok(c) => RateLimitOutcome::Count(counter_value(c)),
    }
}

// =================================================================================================
// Cross-node invalidation
// =================================================================================================

/// A signal that other nodes must drop cached state.
#[derive(Debug, Clone, PartialEq, Eq)]
pub enum InvalidationEvent {
    /// A session was revoked; drop it from the local map.
    SessionRevoked { token: String },
    /// A user's roles changed; drop role-derived caches.
    RoleChanged { user_id: u128 },
}

/// The wire payload of an event.
pub open spec fn event_payload(e: InvalidationEvent) -> Seq<char> {
    match e {
        InvalidationEvent::SessionRevoked { token } => "session-revoked:"@ + token@,
        InvalidationEvent::RoleChanged { user_id } => "role-changed:"@ + uuid_text(user_id),
    }
}

/// The event a payload carries, if any: a non-blank (trimmed) token after `session-revoked:`, or a
/// UUID (trimmed) after `role-changed:`.
pub open spec fn payload_event(p: Seq<char>) -> Option<(bool, Seq<char>, u128)> {
    let sr = "session-revoked:"@;
    let rc = "role-changed:"@;
    if has_prefix(p, sr) {
        let t = trim(p.skip(sr.len() as int));
        if t.len() == 0 {
            None
        } else {
            Some((true, t, 0))
        }
    } else if has_prefix(p, rc) {
        match uuid_parsed(trim(p.skip(rc.len() as int))) {
            Some(u) => Some((false, Seq::empty(), u)),
            None => None,
        }
    } else {
        None
    }
}

/// Whether `e` is the event described by `d` (session revocation with its token, or role change
/// with its user).
pub open spec fn event_is(e: InvalidationEvent, d: (bool, Seq<char>, u128)) -> bool {
    match e {
        InvalidationEvent::SessionRevoked { token } => d.0 && token@ == d.1,
        InvalidationEvent::RoleChanged { user_id } => !d.0 && user_id == d.2,
    }
}

/// Whether an event survives its wire form: a revoked token must be non-blank and carry no
/// surrounding white space (the receiver trims it).
pub open spec fn encodable(e: InvalidationEvent) -> bool {
    match e {
        InvalidationEvent::SessionRevoked { token } => token@.len() > 0 && trim(token@) == token@,
        InvalidationEvent::RoleChanged { .. } => true,
    }
}

/// Whether `r` is the event `e` (same kind, same token text or same user).
pub open spec fn parses_to(r: Option<InvalidationEvent>, e: InvalidationEvent) -> bool {
    match (r, e) {
        (
            Some(InvalidationEvent::SessionRevoked { token: a }),
            InvalidationEvent::SessionRevoked { token: b },
        ) => a@ == b@,
        (
            Some(InvalidationEvent::RoleChanged { user_id: a }),
            InvalidationEvent::RoleChanged { user_id: b },
        ) => a == b,
        _ => false,
    }
}

proof fn lemma_uuid_text_untrimmed(u: u128)
    ensures
        trim(uuid_text(u)) == uuid_text(u),
{
    let t = uuid_text(u);
    assert(t.len() == 36);
    assert(!crate::text::is_ws(t[0]));
    assert(trim_start(t) == t);
    assert(!crate::text::is_ws(t[35]));
    assert(trim_end(t) == t);
}

/// The channel invalidation events travel on.
pub const INVALIDATION_CHANNEL: &'static str = "chancela:v1:invalidate";

fn strip_prefix_chars(s: &str, prefix: &str) -> (r: Option<String>)
    ensures
        if has_prefix(s@, prefix@) {
            r matches Some(rest) && rest@ == s@.skip(prefix@.len() as int)
        } else {
            r is None
        },
{
    let v = crate::text::chars_of(s);
    let p = crate::text::chars_of(prefix);
    if !crate::text::starts_with_chars(&v, &p) {
        return None;
    }
    let rest = crate::text::string_from_range(&v, p.len(), v.len());
    assert(v@.subrange(p@.len() as int, v@.len() as int) =~= v@.skip(p@.len() as int));
    Some(rest)
}

impl InvalidationEvent {
    /// The wire payload: `session-revoked:{token}` or `role-changed:{user id}`.
    pub fn encode(&self) -> (r: String)
        ensures
            r@ == event_payload(*self),
    {
        match self {
            InvalidationEvent::SessionRevoked { token } => {
                let mut m = owned("session-revoked:");
                push_str(&mut m, token.as_str());
                m
            },
            InvalidationEvent::RoleChanged { user_id } => {
                let mut m = owned("role-changed:");
                push_str(&mut m, uuid_to_string(*user_id).as_str());
                m
            },
        }
    }

    /// The event a payload carries; garbage, a blank token and a malformed user id are `None`.
    /// **The payload of an encodable event parses back to that event.**
    pub fn parse(payload: &str) -> (r: Option<InvalidationEvent>)
        ensures
            match payload_event(payload@) {
                None => r is None,
                Some(d) => r matches Some(e) && event_is(e, d),
            },
            forall|e: InvalidationEvent|
                encodable(e) && #[trigger] event_payload(e) == payload@ ==> parses_to(r, e),
    {
        proof {
            reveal_strlit("session-revoked:");
            reveal_strlit("role-changed:");
            assert forall|e: InvalidationEvent| encodable(e) && #[trigger] event_payload(e) == payload@ implies (
            match e {
                InvalidationEvent::SessionRevoked { token } => has_prefix(payload@, "session-revoked:"@)
                    && payload@.skip(16) == token@,
                InvalidationEvent::RoleChanged { user_id } => !has_prefix(payload@, "session-revoked:"@)
                    && has_prefix(payload@, "role-changed:"@) && payload@.skip(13) == uuid_text(user_id),
            }) by {
                match e {
                    InvalidationEvent::SessionRevoked { token } => {
                        assert(payload@.subrange(0, 16) =~= "session-revoked:"@);
                        assert(payload@.skip(16) =~= token@);
                    },
                    InvalidationEvent::RoleChanged { user_id } => {
                        assert(payload@[0] == 'r');
                        assert(payload@.subrange(0, 13) =~= "role-changed:"@);
                        assert(payload@.skip(13) =~= uuid_text(user_id));
                        lemma_uuid_text_untrimmed(user_id);
                    },
                }
            }
        }
        match strip_prefix_chars(payload, "session-revoked:") {
            Some(rest) => {
                let t = trim_chars(rest.as_str());
                if t.len() == 0 {
                    return None;
                }
                return Some(InvalidationEvent::SessionRevoked { token: string_from_chars(&t) });
            },
            None => {},
        }
        match strip_prefix_chars(payload, "role-changed:") {
            Some(rest) => {
                let t = trim_chars(rest.as_str());
                let ts = string_from_chars(&t);
                match parse_uuid(ts.as_str()) {
                    Some(u) => Some(InvalidationEvent::RoleChanged { user_id: u }),
                    None => None,
                }
            },
            None => None,
        }
    }
}

/// A cluster-wide invalidation channel.
pub trait InvalidationBus: Send + Sync {
    /// Whether `r` is where this bus says a listener subscribes; a bus that does not describe it
    /// may answer anything.
    open spec fn answers_dsn(&self, r: Option<String>) -> bool {
        true
    }

    /// Whether `name` is this backend's name; a backend that does not describe itself may have any.
    open spec fn is_kind(&self, name: Seq<char>) -> bool {
        true
    }

    /// Publish an event for the other nodes.
    fn publish(&self, event: &InvalidationEvent);

    /// Where a listener subscribes, if the bus is shared.
    fn subscribe_dsn(&self) -> (r: Option<String>)
        ensures
            self.answers_dsn(r),
    ;

    /// The backend's name.
    fn kind(&self) -> (r: &'static str)
        ensures
            self.is_kind(r@),
    ;
}

/// The single-node default: nothing to publish to, nothing to subscribe to.
#[derive(Debug, Default, Clone, Copy)]
pub struct LocalOnlyInvalidationBus;

impl InvalidationBus for LocalOnlyInvalidationBus {
    /// There is nothing to subscribe to.
    open spec fn answers_dsn(&self, r: Option<String>) -> bool {
        r is None
    }

    open spec fn is_kind(&self, name: Seq<char>) -> bool {
        name == "local"@
    }

    fn publish(&self, event: &InvalidationEvent) {
    }

    fn subscribe_dsn(&self) -> (r: Option<String>)
        ensures
            r is None,
    {
        None
    }

    fn kind(&self) -> (r: &'static str)
        ensures
            r@ == "local"@,
    {
        "local"
    }
}

/// The invalidation channel a node shares with its cluster.
pub struct SharedInvalidationBus<B: InvalidationBus>(pub Arc<B>);

impl<B: InvalidationBus> Clone for SharedInvalidationBus<B> {
    fn clone(&self) -> (r: Self)
        ensures
            *r.0 == *self.0,
    {
        SharedInvalidationBus(Arc::clone(&self.0))
    }
}

impl<B: InvalidationBus> SharedInvalidationBus<B> {
    /// Share `bus`.
    pub fn new(bus: B) -> (r: SharedInvalidationBus<B>)
        ensures
            *r.0 == bus,
    {
        SharedInvalidationBus(Arc::new(bus))
    }

    /// The shared backend's `publish`.
    pub fn publish(&self, event: &InvalidationEvent) {
        self.0.publish(event)
    }

    /// The shared backend's subscription address: the backend's own answer.
    pub fn subscribe_dsn(&self) -> (r: Option<String>)
        ensures
            (*self.0).answers_dsn(r),
    {
        self.0.subscribe_dsn()
    }

    /// The shared backend's name.
    pub fn kind(&self) -> (r: &'static str)
        ensures
            (*self.0).is_kind(r@),
    {
        self.0.kind()
    }
}

impl SharedInvalidationBus<LocalOnlyInvalidationBus> {
    /// The single-node default.
    pub fn local() -> (r: SharedInvalidationBus<LocalOnlyInvalidationBus>)
        ensures
            *r.0 == LocalOnlyInvalidationBus,
    {
        SharedInvalidationBus(Arc::new(LocalOnlyInvalidationBus))
    }
}

impl Default for SharedInvalidationBus<LocalOnlyInvalidationBus> {
    fn default() -> (r: SharedInvalidationBus<LocalOnlyInvalidationBus>)
        ensures
            *r.0 == LocalOnlyInvalidationBus,
    {
        SharedInvalidationBus::local()
    }
}

/// The three pieces of cluster-shared state.
pub struct SharedClusterState<S: SessionStore, L: RateLimiter, B: InvalidationBus> {
    pub sessions: SharedSessionStore<S>,
    pub signin_limiter: SharedRateLimiter<L>,
    pub invalidation: SharedInvalidationBus<B>,
}

impl SharedClusterState<LocalOnlySessionStore, LocalOnlyRateLimiter, LocalOnlyInvalidationBus> {
    /// The single-node default: all three local no-ops.
    pub fn local() -> (r: SharedClusterState<
        LocalOnlySessionStore,
        LocalOnlyRateLimiter,
        LocalOnlyInvalidationBus,
    >)
        ensures
            *r.sessions.0 == LocalOnlySessionStore,
            *r.signin_limiter.0 == LocalOnlyRateLimiter,
            *r.invalidation.0 == LocalOnlyInvalidationBus,
    {
        SharedClusterState {
            sessions: SharedSessionStore::local(),
            signin_limiter: SharedRateLimiter::local(),
            invalidation: SharedInvalidationBus::local(),
        }
    }
}

impl Default for SharedClusterState<LocalOnlySessionStore, LocalOnlyRateLimiter, LocalOnlyInvalidationBus> {
    fn default() -> (r: SharedClusterState<
        LocalOnlySessionStore,
        LocalOnlyRateLimiter,
        LocalOnlyInvalidationBus,
    >)
        ensures
            *r.sessions.0 == LocalOnlySessionStore,
            *r.signin_limiter.0 == LocalOnlyRateLimiter,
            *r.invalidation.0 == LocalOnlyInvalidationBus,
    {
        SharedClusterState::local()
    }
}

/// The shared-store address to use: a readable address file's trimmed, non-blank content wins over
/// the trimmed, non-blank environment value; otherwise none.
pub fn redis_url_from(file_contents: Option<String>, env_value: Option<String>) -> (r: Option<String>)
    ensures
        match file_contents {
            Some(f) if trim(f@).len() > 0 => r matches Some(u) && u@ == trim(f@),
            _ => match env_value {
                Some(e) if trim(e@).len() > 0 => r matches Some(u) && u@ == trim(e@),
                _ => r is None,
            },
        },
{
    match &file_contents {
        Some(f) => {
            let t = trim_chars(f.as_str());
            if t.len() > 0 {
                return Some(string_from_chars(&t));
            }
        },
        None => {},
    }
    match &env_value {
        Some(e) => {
            let t = trim_chars(e.as_str());
            if t.len() > 0 {
                Some(string_from_chars(&t))
            } else {
                None
            }
        },
        None => None,
    }
}

} // verus!
