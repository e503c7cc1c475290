//! **Follower change-feed: fail-closed delta apply and covered-feed lag.**
//!
//! A follower pulls the ordered tail of the leader's hash chain and may adopt it only when it is a
//! clean continuation of the in-memory head: the first fresh event sits exactly at the head's
//! sequence number and points back at the head hash, and the tail is itself dense and backward
//! linked. Events at or below the head are dropped first, so an overlapping delta is a no-op rather
//! than a spurious rejection. Anything else is rejected and the in-memory chain stays as it was —
//! the caller then reloads from the durable store. The whole-chain re-verification of the adopted
//! candidate (which recomputes every event hash) is the ledger's own work; its verdict is folded in
//! by [`finish_delta`].
use vstd::prelude::*;

use crate::text::{
    chars_of, dec_int, dec_nat, owned, push_str, string_from_chars, trim, trim_bounds,
    u64_to_string,
};

verus! {

/// The chain-linkage facts of one ledger event: its sequence number, the hash it points back at,
/// and its own hash.
#[derive(Debug, Clone, Copy, PartialEq, Eq)]
pub struct ChainLink {
    pub seq: u64,
    pub prev_hash: [u8; 32],
    pub hash: [u8; 32],
}

/// The all-zero hash the genesis event points back at.
pub open spec fn zero_hash() -> Seq<u8> {
    Seq::new(32, |i: int| 0u8)
}

/// The hash an appended event must point back at: the head's hash, or zeros for an empty chain.
pub open spec fn expected_prev(head: Option<[u8; 32]>) -> Seq<u8> {
    match head {
        Some(h) => h@,
        None => zero_hash(),
    }
}

/// A dense, backward-linked chain: event `i` has sequence number `i`, the first points back at the
/// zero hash and every later one at its predecessor's hash.
pub open spec fn well_linked(s: Seq<ChainLink>) -> bool {
    &&& forall|i: int| 0 <= i < s.len() ==> (#[trigger] s[i]).seq == i
    &&& s.len() > 0 ==> s[0].prev_hash@ == zero_hash()
    &&& forall|i: int| 0 < i < s.len() ==> (#[trigger] s[i]).prev_hash == s[i - 1].hash
}

/// The head hash of a chain.
pub open spec fn head_of(s: Seq<ChainLink>) -> Option<[u8; 32]> {
    if s.len() == 0 {
        None
    } else {
        Some(s.last().hash)
    }
}

/// The events of a delta that are not yet applied to a chain of `len` events, in order.
pub open spec fn fresh_of(delta: Seq<ChainLink>, len: nat) -> Seq<ChainLink> {
    delta.filter(|e: ChainLink| e.seq >= len)
}

/// Whether `fresh` is a clean continuation of a chain of `len` events with the given head: it
/// starts at sequence `len`, points back at the head, and is itself dense and backward linked.
pub open spec fn clean_continuation(fresh: Seq<ChainLink>, len: nat, head: Option<[u8; 32]>) -> bool {
    &&& fresh.len() > 0
    &&& fresh[0].seq == len
    &&& fresh[0].prev_hash@ == expected_prev(head)
    &&& forall|k: int| 0 <= k < fresh.len() - 1 ==> #[trigger] links_at(fresh, k)
}

/// The plan for one delta.
#[derive(Debug, Clone, PartialEq, Eq)]
pub enum DeltaPlan {
    /// Nothing new (empty, or entirely already applied).
    NoOp,
    /// Fail-closed: the delta does not cleanly extend the head; the reason says where.
    Reject(String),
    /// Adopt `delta[i]` for each index `i` listed, in order, then re-verify the whole chain.
    Extend(Vec<usize>),
}

/// Whether event `k + 1` of `fresh` follows event `k`: the next sequence number, pointing back at
/// its hash.
pub open spec fn links_at(fresh: Seq<ChainLink>, k: int) -> bool {
    fresh[k + 1].seq == fresh[k].seq + 1 && fresh[k + 1].prev_hash == fresh[k].hash
}

/// Whether `msg` reports the first break of `fresh`, at `k`: every earlier pair links, and the
/// pair at `k` does not (a missing sequence number is reported before a broken back-link).
pub open spec fn break_reported_at(fresh: Seq<ChainLink>, k: int, msg: Seq<char>) -> bool {
    &&& 0 <= k < fresh.len() - 1
    &&& forall|j: int| 0 <= j < k ==> #[trigger] links_at(fresh, j)
    &&& if fresh[k + 1].seq != fresh[k].seq + 1 {
        msg == non_contiguous_message(fresh[k].seq)
    } else {
        fresh[k + 1].prev_hash != fresh[k].hash && msg == broken_message(fresh[k + 1].seq)
    }
}

/// Whether `msg` reports the first break of `fresh`, wherever it is.
pub open spec fn reports_break(fresh: Seq<ChainLink>, msg: Seq<char>) -> bool {
    exists|k: int| #[trigger] break_reported_at(fresh, k, msg)
}

/// The message of a gap rejection.
pub open spec fn gap_message(first: u64, expected: nat) -> Seq<char> {
    "gap: delta begins at seq "@ + dec_nat(first as nat) + " but the in-memory head expects seq "@
        + dec_nat(expected)
}

/// The message of a fork rejection.
pub open spec fn fork_message(first: u64) -> Seq<char> {
    "fork: delta seq "@ + dec_nat(first as nat)
        + " prev_hash does not extend the current in-memory head"@
}

/// The message of a non-contiguous delta.
pub open spec fn non_contiguous_message(seq: u64) -> Seq<char> {
    "non-contiguous delta: seq "@ + dec_nat(seq as nat) + " is not followed by "@ + dec_nat(
        (seq + 1) as nat,
    )
}

/// The message of a delta whose internal backward link is broken.
pub open spec fn broken_message(seq: u64) -> Seq<char> {
    "broken chain within delta at seq "@ + dec_nat(seq as nat)
}

fn hash_eq(a: &[u8; 32], b: &[u8; 32]) -> (r: bool)
    ensures
        r == (a@ == b@),
{
    let mut i: usize = 0;
    while i < 32
        invariant
            0 <= i <= 32,
            a@.len() == 32,
            b@.len() == 32,
            forall|j: int| 0 <= j < i ==> a@[j] == b@[j],
        decreases 32 - i,
    {
        if a[i] != b[i] {
            return false;
        }
        i += 1;
    }
    assert(a@ =~= b@);
    true
}

/// **The fail-closed delta plan.** Drops the already-applied events (sequence below `ledger_len`),
/// then accepts the rest only as a clean continuation of the head; otherwise names the first
/// defect: a gap at the seam, a fork at the seam, or a break inside the delta.
pub fn plan_delta(ledger_len: usize, head: Option<[u8; 32]>, delta: &Vec<ChainLink>) -> (r: DeltaPlan)
    requires
        forall|i: int| 0 <= i < delta@.len() ==> (#[trigger] delta@[i]).seq < u64::MAX,
    ensures
        (r is NoOp) <==> fresh_of(delta@, ledger_len as nat).len() == 0,
        ({
            let fresh = fresh_of(delta@, ledger_len as nat);
            match r {
                DeltaPlan::NoOp => fresh.len() == 0,
                DeltaPlan::Extend(idx) => {
                    &&& clean_continuation(fresh, ledger_len as nat, head)
                    &&& idx@.len() == fresh.len()
                    &&& forall|k: int|
                        0 <= k < idx@.len() ==> idx@[k] < delta@.len() && delta@[idx@[k] as int]
                            == #[trigger] fresh[k]
                },
                DeltaPlan::Reject(m) => {
                    &&& fresh.len() > 0
                    &&& !clean_continuation(fresh, ledger_len as nat, head)
                    &&& if fresh[0].seq != ledger_len {
                        m@ == gap_message(fresh[0].seq, ledger_len as nat)
                    } else if fresh[0].prev_hash@ != expected_prev(head) {
                        m@ == fork_message(fresh[0].seq)
                    } else {
                        reports_break(fresh, m@)
                    }
                },
            }
        }),
{
    let ghost pred = |e: ChainLink| e.seq >= ledger_len as nat;
    let expected: u64 = ledger_len as u64;
    let zero: [u8; 32] = [0u8; 32];
    let prev: [u8; 32] = match head {
        Some(h) => h,
        None => zero,
    };
    assert(zero@ =~= zero_hash());
    // The not-yet-applied events, in order.
    let mut idx: Vec<usize> = Vec::new();
    let mut fresh: Vec<ChainLink> = Vec::new();
    let mut i: usize = 0;
    while i < delta.len()
        invariant
            0 <= i <= delta@.len(),
            pred == (|e: ChainLink| e.seq >= ledger_len as nat),
            fresh@ == delta@.take(i as int).filter(pred),
            idx@.len() == fresh@.len(),
            forall|k: int| 0 <= k < idx@.len() ==> #[trigger] idx@[k] < i,
            forall|k: int|
                0 <= k < idx@.len() ==> delta@[idx@[k] as int] == #[trigger] fresh@[k],
        decreases delta.len() - i,
    {
        proof {
            reveal_with_fuel(Seq::<_>::filter, 1);
            assert(delta@.take(i + 1).drop_last() == delta@.take(i as int));
        }
        if delta[i].seq as u128 >= ledger_len as u128 {
            let ghost old_fresh = fresh@;
            let ghost old_idx = idx@;
            fresh.push(delta[i]);
            idx.push(i);
            proof {
                assert forall|k: int| 0 <= k < idx@.len() implies #[trigger] idx@[k] < i + 1 && delta@[idx@[k] as int]
                    == fresh@[k] by {
                    if k < old_idx.len() {
                        assert(old_idx[k] == idx@[k]);
                        assert(old_fresh[k] == fresh@[k]);
                    }
                }
            }
        }
        i += 1;
    }
    assert(delta@.take(delta@.len() as int) == delta@);
    assert(fresh@ == fresh_of(delta@, ledger_len as nat));
    if fresh.len() == 0 {
        return DeltaPlan::NoOp;
    }
    let first = fresh[0];
    if first.seq as u128 != ledger_len as u128 {
        let mut m = owned("gap: delta begins at seq ");
        push_str(&mut m, u64_to_string(first.seq).as_str());
        push_str(&mut m, " but the in-memory head expects seq ");
        push_str(&mut m, u64_to_string(expected).as_str());
        return DeltaPlan::Reject(m);
    }
    if !hash_eq(&first.prev_hash, &prev) {
        let mut m = owned("fork: delta seq ");
        push_str(&mut m, u64_to_string(first.seq).as_str());
        push_str(&mut m, " prev_hash does not extend the current in-memory head");
        return DeltaPlan::Reject(m);
    }
    let mut k: usize = 0;
    while k + 1 < fresh.len()
        invariant
            0 <= k < fresh@.len(),
            fresh@ == fresh_of(delta@, ledger_len as nat),
            fresh@[0].seq == ledger_len,
            fresh@[0].prev_hash@ == expected_prev(head),
            idx@.len() == fresh@.len(),
            forall|j: int|
                0 <= j < idx@.len() ==> idx@[j] < delta@.len() && delta@[idx@[j] as int]
                    == #[trigger] fresh@[j],
            forall|j: int| 0 <= j < fresh@.len() ==> (#[trigger] fresh@[j]).seq >= ledger_len,
            forall|j: int| 0 <= j < fresh@.len() ==> (#[trigger] fresh@[j]).seq < u64::MAX,
            forall|j: int| 0 <= j < k ==> #[trigger] links_at(fresh@, j),
        decreases fresh.len() - k,
    {
        let a = fresh[k];
        let b = fresh[k + 1];
        if b.seq != a.seq + 1 {
            let mut m = owned("non-contiguous delta: seq ");
            push_str(&mut m, u64_to_string(a.seq).as_str());
            push_str(&mut m, " is not followed by ");
            push_str(&mut m, u64_to_string(a.seq + 1).as_str());
            proof {
                reveal_strlit("non-contiguous delta: seq ");
                reveal_strlit(" is not followed by ");
                assert(fresh@[k + 1] == b);
                assert(!links_at(fresh@, k as int));
                assert(break_reported_at(fresh@, k as int, m@));
                assert(!clean_continuation(fresh@, ledger_len as nat, head));
                let f = fresh_of(delta@, ledger_len as nat);
                assert(f.len() > 0);
                assert(!(f[0].seq != ledger_len));
                assert(!(f[0].prev_hash@ != expected_prev(head)));
                assert(reports_break(f, m@));
            }
            return DeltaPlan::Reject(m);
        }
        if !hash_eq(&b.prev_hash, &a.hash) {
            let mut m = owned("broken chain within delta at seq ");
            push_str(&mut m, u64_to_string(b.seq).as_str());
            proof {
                assert(fresh@[k + 1] == b);
                assert(b.prev_hash != a.hash);
                assert(!links_at(fresh@, k as int));
                assert(break_reported_at(fresh@, k as int, m@));
                assert(!clean_continuation(fresh@, ledger_len as nat, head));
                let f = fresh_of(delta@, ledger_len as nat);
                assert(f.len() > 0);
                assert(!(f[0].seq != ledger_len));
                assert(!(f[0].prev_hash@ != expected_prev(head)));
                assert(reports_break(f, m@));
            }
            return DeltaPlan::Reject(m);
        }
        proof {
            assert(fresh@[k + 1] == b);
            assert(b.prev_hash =~= a.hash);
            assert(links_at(fresh@, k as int));
        }
        k += 1;
    }
    DeltaPlan::Extend(idx)
}

/// The outcome of applying a change-feed delta.
#[derive(Debug, Clone, PartialEq, Eq)]
pub enum DeltaOutcome {
    /// The delta held nothing new; the ledger was untouched.
    NoOp,
    /// The delta extended the chain to `new_len` events with head `new_head`.
    Applied { new_len: usize, new_head: Option<[u8; 32]> },
    /// Fail-closed: the delta was rejected and the ledger left untouched; the caller must reload.
    Reject(String),
}

/// The message of a candidate that failed whole-chain re-verification.
pub open spec fn reverify_message(e: Seq<char>) -> Seq<char> {
    "delta failed whole-chain re-verification: "@ + e
}

/// Fold the whole-chain re-verification of the adopted candidate into the outcome: a plan that
/// extends becomes `Applied` (with the candidate's length and head) only when the candidate
/// re-verified; `NoOp` and `Reject` pass through.
pub fn finish_delta(plan: DeltaPlan, candidate: Result<(usize, Option<[u8; 32]>), String>) -> (r:
    DeltaOutcome)
    ensures
        match plan {
            DeltaPlan::NoOp => r == DeltaOutcome::NoOp,
            DeltaPlan::Reject(m) => r == DeltaOutcome::Reject(m),
            DeltaPlan::Extend(_) => match candidate {
                Ok((n, h)) => r == DeltaOutcome::Applied { new_len: n, new_head: h },
                Err(e) => r matches DeltaOutcome::Reject(m) && m@ == reverify_message(e@),
            },
        },
{
    match plan {
        DeltaPlan::NoOp => DeltaOutcome::NoOp,
        DeltaPlan::Reject(m) => DeltaOutcome::Reject(m),
        DeltaPlan::Extend(_) => match candidate {
            Ok((n, h)) => DeltaOutcome::Applied { new_len: n, new_head: h },
            Err(e) => {
                let mut m = owned("delta failed whole-chain re-verification: ");
                push_str(&mut m, e.as_str());
                DeltaOutcome::Reject(m)
            },
        },
    }
}

/// **A follower's chain is never a fork:** adopting a clean continuation onto a dense,
/// backward-linked chain yields a dense, backward-linked chain whose head is the delta's last hash.
pub proof fn lemma_extension_stays_well_linked(chain: Seq<ChainLink>, fresh: Seq<ChainLink>)
    requires
        well_linked(chain),
        clean_continuation(fresh, chain.len(), head_of(chain)),
    ensures
        well_linked(chain + fresh),
        head_of(chain + fresh) == Some(fresh.last().hash),
        (chain + fresh).len() == chain.len() + fresh.len(),
{
    let c = chain + fresh;
    assert forall|k: int| 0 <= k < fresh.len() implies (#[trigger] fresh[k]).seq == chain.len() + k by {
        lemma_dense_from(fresh, chain.len(), k);
    }
    assert forall|i: int| 0 <= i < c.len() implies (#[trigger] c[i]).seq == i by {
        if i >= chain.len() {
            assert(c[i] == fresh[i - chain.len()]);
        }
    }
    assert forall|i: int| 0 < i < c.len() implies (#[trigger] c[i]).prev_hash == c[i - 1].hash by {
        if i > chain.len() {
            assert(c[i] == fresh[i - chain.len()]);
            assert(c[i - 1] == fresh[i - 1 - chain.len()]);
            assert(fresh[(i - 1 - chain.len()) + 1] == fresh[i - chain.len()]);
            assert(links_at(fresh, i - 1 - chain.len()));
        } else if i == chain.len() {
            assert(c[i] == fresh[0]);
            assert(c[i - 1] == chain.last());
            assert(fresh[0].prev_hash@ == chain.last().hash@);
            assert(fresh[0].prev_hash =~= chain.last().hash);
        }
    }
    if chain.len() == 0 {
        assert(c[0] == fresh[0]);
    }
}

proof fn lemma_dense_from(fresh: Seq<ChainLink>, len: nat, k: int)
    requires
        fresh.len() > 0,
        fresh[0].seq == len,
        forall|j: int| 0 <= j < fresh.len() - 1 ==> #[trigger] links_at(fresh, j),
        0 <= k < fresh.len(),
    ensures
        fresh[k].seq == len + k,
    decreases k,
{
    if k > 0 {
        lemma_dense_from(fresh, len, k - 1);
        assert(links_at(fresh, k - 1));
        assert(fresh[(k - 1) + 1] == fresh[k]);
    }
}

/// **Replaying a delta is idempotent:** once a clean continuation is adopted, planning the same
/// delta again against the extended chain finds nothing new.
pub proof fn lemma_replay_is_noop(delta: Seq<ChainLink>, len: nat, head: Option<[u8; 32]>)
    requires
        clean_continuation(fresh_of(delta, len), len, head),
    ensures
        fresh_of(delta, len + fresh_of(delta, len).len()).len() == 0,
{
    let fresh = fresh_of(delta, len);
    let n = len + fresh.len();
    assert forall|k: int| 0 <= k < fresh.len() implies (#[trigger] fresh[k]).seq == len + k by {
        lemma_dense_from(fresh, len, k);
    }
    assert forall|i: int| 0 <= i < delta.len() implies (#[trigger] delta[i]).seq < n by {
        if delta[i].seq >= len {
            lemma_filter_member(delta, len, i);
        }
    }
    lemma_filter_empty(delta, n);
}

/// **A delta of already-applied events is a no-op**: when every event of `delta` sits below a
/// chain of `len` events (an empty delta included), nothing in it is fresh, so [`plan_delta`]
/// answers `NoOp` and the chain is left as it is.
pub proof fn lemma_stale_delta_is_noop(delta: Seq<ChainLink>, len: nat)
    requires
        forall|i: int| 0 <= i < delta.len() ==> (#[trigger] delta[i]).seq < len,
    ensures
        fresh_of(delta, len).len() == 0,
{
    lemma_filter_empty(delta, len);
}

proof fn lemma_filter_member(delta: Seq<ChainLink>, len: nat, i: int)
    requires
        0 <= i < delta.len(),
        delta[i].seq >= len,
        forall|k: int| 0 <= k < fresh_of(delta, len).len() ==> (#[trigger] fresh_of(delta, len)[k]).seq
            == len + k,
    ensures
        delta[i].seq < len + fresh_of(delta, len).len(),
{
    let pred = |e: ChainLink| e.seq >= len;
    assert(pred(delta[i]));
    delta.filter_lemma(pred);
    assert(delta.filter(pred).contains(delta[i]));
    let k = choose|k: int| 0 <= k < delta.filter(pred).len() && delta.filter(pred)[k] == delta[i];
    assert(fresh_of(delta, len)[k] == delta[i]);
}

proof fn lemma_filter_empty(delta: Seq<ChainLink>, n: nat)
    requires
        forall|i: int| 0 <= i < delta.len() ==> (#[trigger] delta[i]).seq < n,
    ensures
        fresh_of(delta, n).len() == 0,
{
    let pred = |e: ChainLink| e.seq >= n;
    delta.filter_lemma(pred);
    if delta.filter(pred).len() > 0 {
        let e = delta.filter(pred)[0];
        assert(delta.filter(pred).contains(e));
        delta.lemma_filter_contains_rev(pred, e);
        assert(pred(e));
    }
}

// =================================================================================================
// Covered-feed lag
// =================================================================================================

/// How many events a follower at `applied_seq` trails the durable `durable_max`; never negative,
/// and zero when the durable head is unknown. The applied sequence number is taken as a signed
/// 64-bit number, as a cast does.
pub open spec fn lag_spec(durable_max: Option<i64>, applied_seq: Option<u64>) -> int {
    match (durable_max, applied_seq) {
        (Some(d), Some(a)) => if d - (a as i64) > 0 {
            d - (a as i64)
        } else {
            0
        },
        (Some(d), None) => if d + 1 > 0 {
            d + 1
        } else {
            0
        },
        (None, _) => 0,
    }
}

/// The lag arithmetic: a follower that has applied up to `applied_seq` trails a durable chain
/// ending at `durable_max` by `durable_max - applied_seq` events (by `durable_max + 1` when it has
/// applied nothing), never by a negative amount. The subtraction must not overflow.
pub fn compute_lag(durable_max: Option<i64>, applied_seq: Option<u64>) -> (r: u64)
    requires
        durable_max matches Some(d) ==> match applied_seq {
            Some(a) => i64::MIN <= d - (a as i64) <= i64::MAX,
            None => d < i64::MAX,
        },
    ensures
        r == lag_spec(durable_max, applied_seq),
{
    match (durable_max, applied_seq) {
        (Some(durable), Some(applied)) => {
            let diff: i64 = durable - applied as i64;
            if diff > 0 {
                diff as u64
            } else {
                0
            }
        },
        (Some(durable), None) => {
            let n: i64 = durable + 1;
            if n > 0 {
                n as u64
            } else {
                0
            }
        },
        (None, _) => 0,
    }
}

/// The scope of the covered-feed freshness signal.
pub const CLUSTER_READ_MODEL_SCOPE: &'static str = "ledger_core_aggregates_signed_documents";

/// A node's covered-feed indicator: durable `MAX(seq)` against the in-memory applied `seq`.
#[derive(Debug, Clone)]
pub struct ClusterReplicaLag {
    /// `"leader"` or `"follower"`.
    pub role: &'static str,
    /// Scope of the freshness signal.
    pub read_model_scope: &'static str,
    /// The highest `seq` applied in memory (`None` for an empty ledger).
    pub applied_seq: Option<u64>,
    /// The durable `MAX(seq)` observed (`None` if unavailable / empty).
    pub durable_max_seq: Option<i64>,
    /// Whether the durable-head query succeeded.
    pub lag_available: bool,
    /// Events behind the durable head; `None` when the durable head could not be read.
    pub lag: Option<u64>,
}

/// The lag indicator for a node holding `ledger_len` events, given the durable-head query's
/// outcome: a leader is authoritative (lag 0); a follower trails the durable head; an unreadable
/// durable head leaves the lag unknown rather than zero.
pub fn replica_lag(is_leader: bool, ledger_len: usize, durable: Result<Option<i64>, String>) -> (r:
    ClusterReplicaLag)
    requires
        ledger_len <= i64::MAX,
        durable matches Ok(Some(d)) ==> d - ledger_len >= i64::MIN && d < i64::MAX,
    ensures
        r.role@ == (if is_leader {
            "leader"@
        } else {
            "follower"@
        }),
        r.read_model_scope@ == CLUSTER_READ_MODEL_SCOPE@,
        r.applied_seq == (if ledger_len > 0 {
            Some((ledger_len - 1) as u64)
        } else {
            None::<u64>
        }),
        r.durable_max_seq == (match durable {
            Ok(d) => d,
            Err(_) => None,
        }),
        r.lag_available == durable is Ok,
        r.lag == (if is_leader {
            Some(0u64)
        } else {
            match durable {
                Ok(d) => Some(lag_spec(d, r.applied_seq) as u64),
                Err(_) => None,
            }
        }),
{
    let applied_seq: Option<u64> = if ledger_len > 0 {
        Some((ledger_len - 1) as u64)
    } else {
        None
    };
    let durable_max_seq: Option<i64> = match &durable {
        Ok(d) => *d,
        Err(_) => None,
    };
    let lag_available = durable.is_ok();
    let lag: Option<u64> = if is_leader {
        Some(0)
    } else {
        match durable {
            Ok(d) => Some(compute_lag(d, applied_seq)),
            Err(_) => None,
        }
    };
    ClusterReplicaLag {
        role: if is_leader {
            "leader"
        } else {
            "follower"
        },
        read_model_scope: CLUSTER_READ_MODEL_SCOPE,
        applied_seq,
        durable_max_seq,
        lag_available,
        lag,
    }
}

// =================================================================================================
// Act scopes
// =================================================================================================

/// The first index `i >= from` at which `pat` occurs in `s`, if any.
pub open spec fn find_from(s: Seq<char>, pat: Seq<char>, from: int) -> Option<int>
    decreases s.len() + 1 - from,
{
    if from < 0 || from + pat.len() > s.len() {
        None
    } else if s.subrange(from, from + pat.len()) == pat {
        Some(from)
    } else {
        find_from(s, pat, from + 1)
    }
}

/// The first occurrence of `pat` in `v` at or after `from`.
pub fn find_chars(v: &Vec<char>, pat: &Vec<char>, from: usize) -> (r: Option<usize>)
    requires
        pat@.len() > 0,
    ensures
        match r {
            Some(i) => find_from(v@, pat@, from as int) == Some(i as int),
            None => find_from(v@, pat@, from as int) is None,
        },
    decreases v@.len() + 1 - from,
{
    let vl: usize = v.len();
    if from > vl || pat.len() > vl - from {
        return None;
    }
    let mut k: usize = 0;
    while k < pat.len()
        invariant
            v@.len() == vl,
            from + pat@.len() <= vl,
            0 <= k <= pat@.len(),
            forall|j: int| 0 <= j < k ==> v@[from + j] == pat@[j],
        decreases pat.len() - k,
    {
        if v[from + k] != pat[k] {
            assert(v@.subrange(from as int, from + pat@.len())[k as int] != pat@[k as int]);
            return find_chars(v, pat, from + 1);
        }
        k += 1;
    }
    assert(v@.subrange(from as int, from + pat@.len()) =~= pat@);
    Some(from)
}

/// The act id a ledger scope names: the text after the first `act:`, up to the next `act:`, then up
/// to the first `/`, trimmed; `None` when there is no such non-empty segment.
pub open spec fn act_id_of_scope(scope: Seq<char>) -> Option<Seq<char>> {
    match find_from(scope, "act:"@, 0) {
        None => None,
        Some(p) => {
            let rest_end = match find_from(scope, "act:"@, p + 4) {
                Some(q) => q,
                None => scope.len() as int,
            };
            let rest = scope.subrange(p + 4, rest_end);
            let seg_end = match find_from(rest, "/"@, 0) {
                Some(q) => q,
                None => rest.len() as int,
            };
            let id = trim(rest.take(seg_end));
            if id.len() == 0 {
                None
            } else {
                Some(id)
            }
        },
    }
}

proof fn lemma_find_bounds(s: Seq<char>, pat: Seq<char>, from: int)
    ensures
        find_from(s, pat, from) matches Some(i) ==> from <= i && i + pat.len() <= s.len(),
    decreases s.len() + 1 - from,
{
    if !(from < 0 || from + pat.len() > s.len()) && s.subrange(from, from + pat.len()) != pat {
        lemma_find_bounds(s, pat, from + 1);
    }
}

/// Extract the act id from a ledger event scope (the `…/act:{aid}` segment), for targeted cache
/// invalidation.
pub fn act_id_from_scope(scope: &str) -> (r: Option<String>)
    ensures
        match r {
            Some(id) => act_id_of_scope(scope@) == Some(id@),
            None => act_id_of_scope(scope@) is None,
        },
{
    let s = chars_of(scope);
    let pat = chars_of("act:");
    let slash = chars_of("/");
    proof {
        reveal_strlit("act:");
        reveal_strlit("/");
    }
    let p = match find_chars(&s, &pat, 0) {
        Some(p) => p,
        None => {
            return None;
        },
    };
    proof {
        lemma_find_bounds(s@, pat@, 0);
    }
    let sl: usize = s.len();
    assert(p + 4 <= sl);
    let rest_end: usize = match find_chars(&s, &pat, p + 4) {
        Some(q) => {
            proof {
                lemma_find_bounds(s@, pat@, p + 4);
            }
            q
        },
        None => s.len(),
    };
    let mut rest: Vec<char> = Vec::new();
    let mut i: usize = p + 4;
    while i < rest_end
        invariant
            p + 4 <= i <= rest_end <= s@.len(),
            rest@ == s@.subrange(p + 4, i as int),
        decreases rest_end - i,
    {
        rest.push(s[i]);
        assert(s@.subrange(p + 4, i + 1) == s@.subrange(p + 4, i as int).push(s@[i as int]));
        i += 1;
    }
    let seg_end: usize = match find_chars(&rest, &slash, 0) {
        Some(q) => {
            proof {
                lemma_find_bounds(rest@, slash@, 0);
            }
            q
        },
        None => rest.len(),
    };
    let mut seg: Vec<char> = Vec::new();
    let mut j: usize = 0;
    while j < seg_end
        invariant
            0 <= j <= seg_end <= rest@.len(),
            seg@ == rest@.take(j as int),
        decreases seg_end - j,
    {
        seg.push(rest[j]);
        assert(rest@.take(j + 1) == rest@.take(j as int).push(rest@[j as int]));
        j += 1;
    }
    let bounds = trim_bounds(&seg);
    if bounds.0 == bounds.1 {
        return None;
    }
    let mut id: Vec<char> = Vec::new();
    let mut k: usize = bounds.0;
    while k < bounds.1
        invariant
            bounds.0 <= k <= bounds.1 <= seg@.len(),
            id@ == seg@.subrange(bounds.0 as int, k as int),
        decreases bounds.1 - k,
    {
        id.push(seg[k]);
        assert(seg@.subrange(bounds.0 as int, k + 1) == seg@.subrange(bounds.0 as int, k as int).push(
            seg@[k as int],
        ));
        k += 1;
    }
    Some(string_from_chars(&id))
}

} // verus!
