use chancela_api::cluster_feed::{
    act_id_from_scope, compute_lag, finish_delta, plan_delta, replica_lag, ChainLink, DeltaOutcome, DeltaPlan,
    CLUSTER_READ_MODEL_SCOPE,
};

/// A dense, backward-linked chain of `n` events; event `i`'s hash is `[i + 1; 32]`.
fn chain_of(n: usize) -> Vec<ChainLink> {
    let mut out: Vec<ChainLink> = Vec::new();
    for i in 0..n {
        let prev = if i == 0 { [0u8; 32] } else { out[i - 1].hash };
        out.push(ChainLink { seq: i as u64, prev_hash: prev, hash: [(i + 1) as u8; 32] });
    }
    out
}

/// A follower ledger: the chain it holds.
struct Follower {
    events: Vec<ChainLink>,
}

impl Follower {
    fn at(full: &[ChainLink], k: usize) -> Self {
        Follower { events: full[..k].to_vec() }
    }

    fn head(&self) -> Option<[u8; 32]> {
        self.events.last().map(|e| e.hash)
    }

    fn len(&self) -> usize {
        self.events.len()
    }

    /// Whether the held chain is dense and backward linked.
    fn intact(&self) -> bool {
        self.events.iter().enumerate().all(|(i, e)| {
            e.seq == i as u64 && e.prev_hash == if i == 0 { [0u8; 32] } else { self.events[i - 1].hash }
        })
    }

    /// Apply a delta: plan it, adopt the listed events on a candidate, re-verify, fold the verdict.
    fn apply(&mut self, delta: &[ChainLink]) -> DeltaOutcome {
        let delta = delta.to_vec();
        let plan = plan_delta(self.len(), self.head(), &delta);
        let mut candidate = self.events.clone();
        if let DeltaPlan::Extend(idx) = &plan {
            for &i in idx {
                candidate.push(delta[i]);
            }
        }
        let verdict = {
            let c = Follower { events: candidate.clone() };
            if c.intact() { Ok((c.len(), c.head())) } else { Err("hash mismatch".to_owned()) }
        };
        let outcome = finish_delta(plan, verdict);
        if let DeltaOutcome::Applied { .. } = outcome {
            self.events = candidate;
        }
        outcome
    }
}

#[test]
fn apply_delta_extends_on_a_valid_tail() {
    let full = chain_of(5);
    let mut follower = Follower::at(&full, 2);
    let outcome = follower.apply(&full[2..]);
    assert!(matches!(outcome, DeltaOutcome::Applied { new_len: 5, .. }), "{outcome:?}");
    assert_eq!(follower.len(), 5);
    assert!(follower.intact());
    assert_eq!(follower.head(), Some(full[4].hash));
}

#[test]
fn apply_delta_is_noop_on_empty_or_fully_overlapping_delta() {
    let full = chain_of(4);
    let mut follower = Follower::at(&full, 4);
    assert_eq!(follower.apply(&[]), DeltaOutcome::NoOp);
    assert_eq!(follower.apply(&full[..4]), DeltaOutcome::NoOp);
    assert_eq!(follower.len(), 4);
}

#[test]
fn apply_delta_trims_overlap_then_extends() {
    let full = chain_of(6);
    let mut follower = Follower::at(&full, 3);
    let outcome = follower.apply(&full[1..]);
    assert!(matches!(outcome, DeltaOutcome::Applied { new_len: 6, .. }));
    assert!(follower.intact());
}

#[test]
fn delta_candidate_can_be_discarded_if_aggregate_refresh_fails() {
    let full = chain_of(5);
    let visible = Follower::at(&full, 2);
    let old_head = visible.head();
    let mut candidate = Follower { events: visible.events.clone() };
    let outcome = candidate.apply(&full[2..]);
    assert!(matches!(outcome, DeltaOutcome::Applied { new_len: 5, .. }));
    assert_eq!(candidate.len(), 5);
    assert_eq!(visible.len(), 2, "visible ledger did not advance");
    assert_eq!(visible.head(), old_head);
    assert!(visible.intact());
}

#[test]
fn apply_delta_rejects_a_gap_and_leaves_the_ledger_untouched() {
    let full = chain_of(5);
    let mut follower = Follower::at(&full, 2);
    let outcome = follower.apply(&full[3..]);
    assert_eq!(
        outcome,
        DeltaOutcome::Reject("gap: delta begins at seq 3 but the in-memory head expects seq 2".to_owned())
    );
    assert_eq!(follower.len(), 2);
    assert!(follower.intact());
}

#[test]
fn apply_delta_rejects_a_fork_at_the_seam() {
    let full = chain_of(5);
    let mut follower = Follower::at(&full, 2);
    let mut forked: Vec<ChainLink> = full[2..].to_vec();
    forked[0].prev_hash = [0xAB; 32];
    let outcome = follower.apply(&forked);
    assert!(matches!(&outcome, DeltaOutcome::Reject(reason) if reason.contains("fork")), "{outcome:?}");
    assert_eq!(
        outcome,
        DeltaOutcome::Reject("fork: delta seq 2 prev_hash does not extend the current in-memory head".to_owned())
    );
    assert_eq!(follower.len(), 2, "the ledger must never become a fork");
    assert!(follower.intact());
}

#[test]
fn apply_delta_rejects_a_delta_broken_internally() {
    let full = chain_of(6);
    let mut follower = Follower::at(&full, 2);
    let mut broken: Vec<ChainLink> = full[2..].to_vec();
    broken[2].prev_hash = [0x11; 32];
    let outcome = follower.apply(&broken);
    assert_eq!(outcome, DeltaOutcome::Reject("broken chain within delta at seq 4".to_owned()));
    assert_eq!(follower.len(), 2, "a broken delta must not be half-applied");
}

#[test]
fn a_non_contiguous_delta_names_the_missing_successor() {
    let full = chain_of(6);
    let delta = vec![full[2], full[4]];
    let plan = plan_delta(2, Some(full[1].hash), &delta);
    assert_eq!(plan, DeltaPlan::Reject("non-contiguous delta: seq 2 is not followed by 3".to_owned()));
}

#[test]
fn a_candidate_that_fails_reverification_is_rejected() {
    let full = chain_of(3);
    let plan = plan_delta(1, Some(full[0].hash), &full[1..].to_vec());
    assert_eq!(plan, DeltaPlan::Extend(vec![0, 1]));
    assert_eq!(
        finish_delta(plan, Err("event 2 hash mismatch".to_owned())),
        DeltaOutcome::Reject("delta failed whole-chain re-verification: event 2 hash mismatch".to_owned())
    );
}

#[test]
fn a_duplicate_seq_delta_can_never_fork_the_chain() {
    let full = chain_of(4);
    let mut node = Follower::at(&full, 4);
    let mut forked = full[3];
    forked.prev_hash = [0xEE; 32];
    assert_eq!(node.apply(&[forked]), DeltaOutcome::NoOp);
    assert_eq!(node.events, full);
}

#[test]
fn a_follower_converges_to_the_leader_head_via_incremental_deltas() {
    let full = chain_of(10);
    let mut follower = Follower::at(&full, 0);
    for range in [0..4usize, 4..7, 7..10] {
        let outcome = follower.apply(&full[range]);
        assert!(matches!(outcome, DeltaOutcome::Applied { .. }));
    }
    assert_eq!(follower.len(), 10);
    assert_eq!(follower.head(), Some(full[9].hash));
    assert!(follower.intact());
}

#[test]
fn a_delta_that_would_fork_is_rejected_and_triggers_a_reload() {
    let full = chain_of(6);
    let mut follower = Follower::at(&full, 3);
    let mut forked: Vec<ChainLink> = full[3..].to_vec();
    forked[0].prev_hash = [0x01; 32];
    assert!(matches!(follower.apply(&forked), DeltaOutcome::Reject(_)));
    assert_eq!(follower.len(), 3);
    assert!(follower.intact());
}

#[test]
fn replaying_an_applied_delta_is_a_noop() {
    let full = chain_of(5);
    let mut follower = Follower::at(&full, 2);
    assert!(matches!(follower.apply(&full[2..]), DeltaOutcome::Applied { .. }));
    assert_eq!(follower.apply(&full[2..]), DeltaOutcome::NoOp);
}

#[test]
fn compute_lag_reflects_applied_seq_vs_durable_max() {
    assert_eq!(compute_lag(Some(9), Some(9)), 0);
    assert_eq!(compute_lag(Some(9), Some(6)), 3);
    assert_eq!(compute_lag(Some(4), None), 5);
    assert_eq!(compute_lag(None, Some(3)), 0);
    assert_eq!(compute_lag(None, None), 0);
    assert_eq!(compute_lag(Some(2), Some(5)), 0);
}

#[test]
fn cluster_health_status_names_its_narrow_read_model_scope() {
    let status = replica_lag(false, 10, Ok(Some(9)));
    assert_eq!(status.role, "follower");
    assert_eq!(status.read_model_scope, "ledger_core_aggregates_signed_documents");
    assert_eq!(status.read_model_scope, CLUSTER_READ_MODEL_SCOPE);
    assert_eq!(status.applied_seq, Some(9));
    assert_eq!(status.durable_max_seq, Some(9));
    assert!(status.lag_available);
    assert_eq!(status.lag, Some(0));
}

#[test]
fn cluster_health_status_can_report_unknown_lag() {
    let status = replica_lag(false, 4, Err("connection refused".to_owned()));
    assert_eq!(status.applied_seq, Some(3));
    assert_eq!(status.durable_max_seq, None);
    assert!(!status.lag_available);
    assert_eq!(status.lag, None);
    let leader = replica_lag(true, 0, Ok(Some(7)));
    assert_eq!(leader.role, "leader");
    assert_eq!(leader.applied_seq, None);
    assert_eq!(leader.lag, Some(0));
    let behind = replica_lag(false, 3, Ok(Some(7)));
    assert_eq!(behind.lag, Some(5));
}

#[test]
fn act_id_from_scope_extracts_the_act_segment() {
    assert_eq!(act_id_from_scope("entity:E1/book:B1/act:A9"), Some("A9".to_owned()));
    assert_eq!(act_id_from_scope("book:B1/act:ABC/extra"), Some("ABC".to_owned()));
    assert_eq!(act_id_from_scope("entity:E1/book:B1"), None);
    assert_eq!(act_id_from_scope("settings"), None);
}
