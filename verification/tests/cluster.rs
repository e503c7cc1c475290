use chancela_api::cluster::{
    follower_tick, interval_secs, leader_should_heartbeat, leader_tick, transition, validate_handoff_ledger_len,
    LockEvent, NodeRole, RoleState, Tick,
};

#[test]
fn node_role_parses_and_defaults_to_auto() {
    assert_eq!(NodeRole::parse(Some("leader")), NodeRole::Leader);
    assert_eq!(NodeRole::parse(Some(" Follower ")), NodeRole::Follower);
    assert_eq!(NodeRole::parse(Some("AUTO")), NodeRole::Auto);
    assert_eq!(NodeRole::parse(None), NodeRole::Auto);
    assert_eq!(NodeRole::parse(Some("")), NodeRole::Auto);
    assert_eq!(NodeRole::parse(Some("weird")), NodeRole::Auto);
}

#[test]
fn only_pinned_follower_refuses_to_promote() {
    assert!(NodeRole::Auto.may_promote());
    assert!(NodeRole::Leader.may_promote());
    assert!(!NodeRole::Follower.may_promote());
}

#[test]
fn auto_follower_promotes_on_acquiring_the_lock() {
    assert_eq!(transition(RoleState::Follower, NodeRole::Auto, LockEvent::Acquired), RoleState::Leader);
}

#[test]
fn pinned_follower_never_promotes_even_on_acquire() {
    assert_eq!(transition(RoleState::Follower, NodeRole::Follower, LockEvent::Acquired), RoleState::Follower);
}

#[test]
fn follower_stays_follower_while_lock_unavailable() {
    assert_eq!(transition(RoleState::Follower, NodeRole::Auto, LockEvent::Unavailable), RoleState::Follower);
}

#[test]
fn leader_stays_leader_while_lock_held() {
    assert_eq!(transition(RoleState::Leader, NodeRole::Auto, LockEvent::Held), RoleState::Leader);
}

#[test]
fn leader_steps_down_on_lost_lock_fail_closed() {
    assert_eq!(transition(RoleState::Leader, NodeRole::Leader, LockEvent::Lost), RoleState::Follower);
    assert_eq!(transition(RoleState::Leader, NodeRole::Auto, LockEvent::Unavailable), RoleState::Follower);
}

#[test]
fn full_lifecycle_auto_follower_to_leader_and_back() {
    let role = NodeRole::Auto;
    let mut s = RoleState::Follower;
    s = transition(s, role, LockEvent::Unavailable);
    assert_eq!(s, RoleState::Follower);
    s = transition(s, role, LockEvent::Acquired);
    assert_eq!(s, RoleState::Leader);
    s = transition(s, role, LockEvent::Held);
    assert_eq!(s, RoleState::Leader);
    s = transition(s, role, LockEvent::Lost);
    assert_eq!(s, RoleState::Follower);
}

#[test]
fn env_duration_clamps_to_one_second_minimum() {
    assert_eq!(interval_secs(None, 0), 1);
    assert_eq!(interval_secs(Some("garbage"), 0), 1);
    assert_eq!(interval_secs(Some("0"), 5), 1);
    assert_eq!(interval_secs(Some(" 7 "), 2), 7);
    assert_eq!(interval_secs(Some("-3"), 2), 2);
    assert_eq!(interval_secs(None, 2), 2);
}

#[test]
fn handoff_ledger_len_validation_fails_closed_on_mismatch() {
    assert!(validate_handoff_ledger_len(0, None).is_ok());
    assert!(validate_handoff_ledger_len(1, Some(0)).is_ok());
    assert!(validate_handoff_ledger_len(3, Some(2)).is_ok());

    assert!(validate_handoff_ledger_len(1, None).is_err());
    assert!(validate_handoff_ledger_len(2, Some(2)).is_err());
    assert!(validate_handoff_ledger_len(0, Some(0)).is_err());
    assert!(validate_handoff_ledger_len(1, Some(-1)).is_err());
    assert!(validate_handoff_ledger_len(1, Some(i64::MAX)).is_err());
}

#[test]
fn handoff_refusals_name_the_disagreement() {
    assert_eq!(validate_handoff_ledger_len(1, Some(-1)), Err("durable MAX(seq) is negative: -1".to_owned()));
    assert_eq!(
        validate_handoff_ledger_len(2, Some(2)),
        Err("loaded ledger length 2 does not match durable MAX(seq) 2".to_owned())
    );
    assert_eq!(
        validate_handoff_ledger_len(1, Some(i64::MAX)),
        Err(format!("durable MAX(seq) {} cannot be incremented", i64::MAX))
    );
    assert_eq!(
        validate_handoff_ledger_len(4, None),
        Err("durable MAX(seq) is NULL but loaded ledger length is 4".to_owned())
    );
}

#[test]
fn supervisor_ticks_fold_through_the_transition() {
    assert!(leader_should_heartbeat(true, true));
    assert!(!leader_should_heartbeat(false, true));
    assert!(!leader_should_heartbeat(true, false));
    assert_eq!(leader_tick(NodeRole::Auto, true, None), Tick::StillLeader);
    assert_eq!(leader_tick(NodeRole::Auto, true, Some(true)), Tick::StillLeader);
    assert_eq!(leader_tick(NodeRole::Leader, false, None), Tick::SteppedDown);
    assert_eq!(leader_tick(NodeRole::Auto, true, Some(false)), Tick::SteppedDown);
    assert_eq!(follower_tick(NodeRole::Auto, None), Tick::StillFollower);
    assert_eq!(follower_tick(NodeRole::Auto, Some(Ok(true))), Tick::Promoted);
    assert_eq!(follower_tick(NodeRole::Follower, Some(Ok(true))), Tick::StillFollower);
    assert_eq!(follower_tick(NodeRole::Auto, Some(Ok(false))), Tick::StillFollower);
    assert_eq!(follower_tick(NodeRole::Auto, Some(Err("db".to_owned()))), Tick::Error("db".to_owned()));
}
