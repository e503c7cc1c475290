//! **Leader self-fence watchdog: the decision.**
//!
//! A leader that cannot *prove* it still leads within a deadline — the verify errors, times out or
//! its task panics — proactively steps down. Only a positive re-verification keeps it leading; a
//! follower is never fenced. The caller performs the deadline-bounded verify and the step-down.
use vstd::prelude::*;

use crate::cluster::{interval_secs, interval_secs_spec, opt_view};

verus! {

/// What the watchdog observed about this node's leadership on one check.
#[derive(Debug, Clone, Copy, PartialEq, Eq, Structural)]
pub enum WatchdogObservation {
    /// This node is not the leader — nothing to guard.
    NotLeader,
    /// Leadership was re-proven within the deadline.
    LeaderHealthy,
    /// The verify returned an error (lost lock, stolen epoch, broken session).
    VerifyFailed,
    /// The verify did not return within the deadline (partition / wedged writer session).
    VerifyTimedOut,
}

/// The action the watchdog takes for an observation.
#[derive(Debug, Clone, Copy, PartialEq, Eq, Structural)]
pub enum WatchdogAction {
    /// Not the leader — do nothing.
    Idle,
    /// Leadership proven — keep leading.
    Continue,
    /// Fail-closed: proactively step down.
    Fence,
}

/// The watchdog's decision table.
pub open spec fn watchdog_action(o: WatchdogObservation) -> WatchdogAction {
    match o {
        WatchdogObservation::NotLeader => WatchdogAction::Idle,
        WatchdogObservation::LeaderHealthy => WatchdogAction::Continue,
        WatchdogObservation::VerifyFailed | WatchdogObservation::VerifyTimedOut =>
            WatchdogAction::Fence,
    }
}

/// **The watchdog decision.** A leader is fenced on any inability to prove it still leads; only a
/// positive re-verification keeps it leading.
pub fn watchdog_decide(observation: WatchdogObservation) -> (r: WatchdogAction)
    ensures
        r == watchdog_action(observation),
        r == WatchdogAction::Continue <==> observation == WatchdogObservation::LeaderHealthy,
        r == WatchdogAction::Idle <==> observation == WatchdogObservation::NotLeader,
{
    match observation {
        WatchdogObservation::NotLeader => WatchdogAction::Idle,
        WatchdogObservation::LeaderHealthy => WatchdogAction::Continue,
        WatchdogObservation::VerifyFailed | WatchdogObservation::VerifyTimedOut =>
            WatchdogAction::Fence,
    }
}

/// The default re-verify interval (and per-check deadline), in seconds.
pub const DEFAULT_WATCHDOG_INTERVAL_SECS: u64 = 3;

/// The watchdog interval from a raw `CHANCELA_LEADER_WATCHDOG_INTERVAL` value: whole seconds,
/// default 3, never below 1.
pub fn watchdog_interval_secs(raw: Option<&str>) -> (r: u64)
    ensures
        r == interval_secs_spec(opt_view(raw), DEFAULT_WATCHDOG_INTERVAL_SECS),
        r >= 1,
{
    interval_secs(raw, DEFAULT_WATCHDOG_INTERVAL_SECS)
}

} // verus!
