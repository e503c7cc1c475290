use chancela_api::cluster::{NodeRole, RoleState};
use chancela_api::cluster_feed::{finish_delta, plan_delta, ChainLink, DeltaOutcome, DeltaPlan};
use chancela_api::cluster_route::{route_write, WriteMode, WriteRoute};
use chancela_api::cluster_sim::{settle, Member, SharedLock};
use chancela_api::cluster_watchdog::{watchdog_decide, WatchdogAction, WatchdogObservation};

#[test]
fn election_yields_exactly_one_leader_among_n_candidates() {
    let mut lock = SharedLock::new();
    let mut members: Vec<Member> = (0..5).map(|i| Member::new(i, NodeRole::Auto)).collect();
    settle(&mut members, &mut lock);
    let leaders = members.iter().filter(|m| m.is_leader()).count();
    assert_eq!(leaders, 1, "exactly one node may win the single advisory lock");
    assert_eq!(members.iter().filter(|m| !m.is_leader()).count(), 4, "every other node is a follower");
    assert!(lock.holder().is_some(), "the winner physically holds the lock");
}

#[test]
fn a_pinned_follower_never_wins_even_if_it_reaches_the_lock_first() {
    let mut lock = SharedLock::new();
    let mut members = vec![Member::new(0, NodeRole::Follower), Member::new(1, NodeRole::Auto)];
    settle(&mut members, &mut lock);
    assert!(!members[0].is_leader(), "a pinned follower never leads");
    assert!(members[1].is_leader(), "the auto node takes leadership");
}

#[test]
fn failover_promotes_a_follower_at_a_strictly_higher_epoch() {
    let mut lock = SharedLock::new();
    let mut leader = Member::new(0, NodeRole::Auto);
    let mut follower = Member::new(1, NodeRole::Auto);
    leader.poll_promote(&mut lock);
    follower.poll_promote(&mut lock);
    assert!(leader.is_leader() && !follower.is_leader());
    let epoch_before = leader.my_epoch;
    lock.release_if_holder(leader.id);
    leader.poll_verify(&lock);
    assert!(!leader.is_leader(), "a crashed leader is no longer leader");
    follower.poll_promote(&mut lock);
    assert!(follower.is_leader(), "the follower promotes");
    assert!(follower.my_epoch > epoch_before, "each promotion bumps the leader epoch");
}

#[test]
fn two_nodes_never_both_hold_the_lock_under_contention() {
    let mut lock = SharedLock::new();
    let mut a = Member::new(0, NodeRole::Auto);
    let mut b = Member::new(1, NodeRole::Auto);
    for _ in 0..50 {
        a.poll_promote(&mut lock);
        b.poll_promote(&mut lock);
        a.poll_verify(&lock);
        b.poll_verify(&lock);
        assert!(!(a.is_leader() && b.is_leader()), "two sessions must never both be leader");
    }
    assert!(a.is_leader() ^ b.is_leader(), "exactly one is the leader");
}

#[test]
fn a_leader_partitioned_from_postgres_steps_down_and_cannot_write() {
    let mut lock = SharedLock::new();
    let mut leader = Member::new(0, NodeRole::Auto);
    leader.poll_promote(&mut lock);
    assert!(leader.is_leader());
    lock.release_if_holder(leader.id);
    leader.poll_verify(&lock);
    assert!(!leader.is_leader(), "a partitioned leader fails its verify and steps down");
    assert_eq!(watchdog_decide(WatchdogObservation::VerifyTimedOut), WatchdogAction::Fence);
}

#[test]
fn a_stale_epoch_zombie_leader_is_fenced() {
    let mut lock = SharedLock::new();
    let mut zombie = Member::new(0, NodeRole::Auto);
    zombie.poll_promote(&mut lock);
    let old_epoch = zombie.my_epoch;
    lock.release_if_holder(zombie.id);
    let mut successor = Member::new(1, NodeRole::Auto);
    successor.poll_promote(&mut lock);
    assert!(lock.current_epoch() > old_epoch);
    zombie.role = RoleState::Leader;
    zombie.poll_verify(&lock);
    assert!(!zombie.is_leader(), "a stale-epoch zombie is fenced on its next verify");
}

#[test]
fn a_write_on_a_follower_redirects_to_the_leader() {
    let route = route_write("POST", false, Some("https://leader.example:8443"), WriteMode::Redirect, "/v1/acts");
    assert_eq!(route, WriteRoute::Redirect("https://leader.example:8443/v1/acts".to_owned()));
}

#[test]
fn a_write_mid_failover_with_no_known_leader_is_503_never_a_local_write() {
    let route = route_write("POST", false, None, WriteMode::Redirect, "/v1/acts");
    assert!(matches!(route, WriteRoute::Unavailable(_)), "{route:?}");
}

#[test]
fn the_lock_only_releases_for_its_holder() {
    let mut lock = SharedLock::new();
    assert_eq!(lock.try_acquire(3), Some(1));
    assert_eq!(lock.try_acquire(4), None);
    assert_eq!(lock.try_acquire(3), Some(2), "the holder re-acquiring bumps the epoch");
    lock.release_if_holder(4);
    assert_eq!(lock.holder(), Some(3));
    lock.release_if_holder(3);
    assert_eq!(lock.holder(), None);
    assert_eq!(lock.current_epoch(), 2);
}

/// A dense, backward-linked chain of `n` events; event `i`'s hash is `[i + 1; 32]`.
fn leader_chain(n: usize) -> Vec<ChainLink> {
    let mut out: Vec<ChainLink> = Vec::new();
    for i in 0..n {
        let prev = if i == 0 { [0u8; 32] } else { out[i - 1].hash };
        out.push(ChainLink { seq: i as u64, prev_hash: prev, hash: [(i + 1) as u8; 32] });
    }
    out
}

fn dense_and_intact(events: &[ChainLink]) -> bool {
    events
        .iter()
        .enumerate()
        .all(|(i, e)| e.seq == i as u64 && e.prev_hash == if i == 0 { [0u8; 32] } else { events[i - 1].hash })
}

#[test]
fn failover_handoff_preserves_a_dense_intact_chain_with_no_gap_or_duplicate() {
    let mut lock = SharedLock::new();
    let mut leader = Member::new(0, NodeRole::Auto);
    let mut follower = Member::new(1, NodeRole::Auto);
    leader.poll_promote(&mut lock);
    follower.poll_promote(&mut lock);
    assert!(leader.is_leader() && !follower.is_leader());
    let epoch_before = leader.my_epoch;

    let durable = leader_chain(7);
    let mut follower_ledger: Vec<ChainLink> = durable[..5].to_vec();

    lock.release_if_holder(leader.id);
    leader.poll_verify(&lock);
    assert!(!leader.is_leader());
    follower.poll_promote(&mut lock);
    assert!(follower.is_leader());
    assert!(follower.my_epoch > epoch_before);

    let delta = durable[5..].to_vec();
    let plan = plan_delta(follower_ledger.len(), follower_ledger.last().map(|e| e.hash), &delta);
    let mut candidate = follower_ledger.clone();
    if let DeltaPlan::Extend(idx) = &plan {
        for &i in idx {
            candidate.push(delta[i]);
        }
    }
    let verdict = if dense_and_intact(&candidate) {
        Ok((candidate.len(), candidate.last().map(|e| e.hash)))
    } else {
        Err("broken".to_owned())
    };
    let outcome = finish_delta(plan, verdict);
    assert!(matches!(outcome, DeltaOutcome::Applied { new_len: 7, .. }), "{outcome:?}");
    follower_ledger = candidate;
    assert!(dense_and_intact(&follower_ledger));
    assert_eq!(follower_ledger.last().map(|e| e.hash), durable.last().map(|e| e.hash));

    let next = ChainLink { seq: follower_ledger.len() as u64, prev_hash: follower_ledger[6].hash, hash: [0x77; 32] };
    follower_ledger.push(next);
    assert_eq!(follower_ledger.len(), 8);
    assert_eq!(follower_ledger[7].seq, 7, "next seq is MAX(seq)+1");
    assert!(dense_and_intact(&follower_ledger));
}
