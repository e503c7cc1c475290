use chancela_api::cluster_watchdog::{
    watchdog_decide, watchdog_interval_secs, WatchdogAction, WatchdogObservation, DEFAULT_WATCHDOG_INTERVAL_SECS,
};

#[test]
fn a_follower_is_idle_never_fenced() {
    assert_eq!(watchdog_decide(WatchdogObservation::NotLeader), WatchdogAction::Idle);
}

#[test]
fn a_healthy_leader_keeps_leading() {
    assert_eq!(watchdog_decide(WatchdogObservation::LeaderHealthy), WatchdogAction::Continue);
}

#[test]
fn verify_failure_fences_fail_closed() {
    assert_eq!(watchdog_decide(WatchdogObservation::VerifyFailed), WatchdogAction::Fence);
}

#[test]
fn a_wedged_or_partitioned_leader_times_out_and_is_fenced() {
    assert_eq!(watchdog_decide(WatchdogObservation::VerifyTimedOut), WatchdogAction::Fence);
}

#[test]
fn only_a_positive_reverification_avoids_fencing() {
    for obs in [WatchdogObservation::VerifyFailed, WatchdogObservation::VerifyTimedOut] {
        assert_eq!(watchdog_decide(obs), WatchdogAction::Fence, "{obs:?} must fence");
    }
    assert_ne!(watchdog_decide(WatchdogObservation::LeaderHealthy), WatchdogAction::Fence);
}

#[test]
fn watchdog_interval_defaults_and_clamps_to_one_second() {
    assert_eq!(watchdog_interval_secs(None), DEFAULT_WATCHDOG_INTERVAL_SECS);
    assert_eq!(watchdog_interval_secs(None), 3);
    assert_eq!(watchdog_interval_secs(Some("0")), 1);
    assert_eq!(watchdog_interval_secs(Some("nope")), 3);
    assert_eq!(watchdog_interval_secs(Some(" 9 ")), 9);
}
