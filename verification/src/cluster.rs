//! **Advisory-lock leader election, step-down and handoff: the decisions.**
//!
//! Several nodes share one database whose writer advisory lock is the election primitive: the
//! holder is LEADER for the write path, the others are FOLLOWERS that refuse writes. Everything
//! here is the pure decision half — the role parser, the election state machine, the per-tick
//! decisions of the supervisor and the handoff's ledger-length check. The lock operations
//! themselves are performed by the caller, which feeds their outcomes in.
//!
//! Fail-closed throughout: a leader that cannot prove it still holds the lock becomes a follower,
//! a pinned follower never leads, and a handoff whose durable ledger length does not match the
//! durable `MAX(seq)` is refused.
use vstd::prelude::*;

use crate::text::{
    ascii_lower_seq, ascii_lowercase_chars, chars_of, dec_int, dec_nat, i64_to_string, owned,
    parse_u64, parse_u64_spec, push_str, seq_eq, trim, trim_chars, u64_to_string,
};

verus! {

/// `raw` trimmed and ASCII-lower-cased, as the environment parsers compare it.
pub open spec fn normalized(raw: Seq<char>) -> Seq<char> {
    ascii_lower_seq(trim(raw))
}

/// `raw.trim().to_ascii_lowercase()`, as characters.
pub fn normalized_chars(raw: &str) -> (r: Vec<char>)
    ensures
        r@ == normalized(raw@),
{
    let t = trim_chars(raw);
    ascii_lowercase_chars(&t)
}

/// Whether `v` holds exactly the characters of `lit`.
pub fn chars_equal_str(v: &Vec<char>, lit: &str) -> (r: bool)
    ensures
        r == (v@ == lit@),
{
    let l = chars_of(lit);
    seq_eq(v, &l)
}

/// This node's configured role, from `CHANCELA_NODE_ROLE`.
#[derive(Debug, Clone, Copy, PartialEq, Eq, Structural)]
pub enum NodeRole {
    /// Try to become leader; fall back to follower (the default polling-election mode).
    Auto,
    /// Pinned leader (campaigns for the lock exactly like `Auto`).
    Leader,
    /// Pinned follower: never campaigns for leadership.
    Follower,
}

/// The role a raw configuration value selects: `leader` or `follower` after trimming and ASCII
/// lower-casing; anything else (including unset) is `Auto`.
pub open spec fn parse_node_role(raw: Option<Seq<char>>) -> NodeRole {
    match raw {
        Some(s) => if normalized(s) == "leader"@ {
            NodeRole::Leader
        } else if normalized(s) == "follower"@ {
            NodeRole::Follower
        } else {
            NodeRole::Auto
        },
        None => NodeRole::Auto,
    }
}

/// The view of an optional string slice.
pub open spec fn opt_view(raw: Option<&str>) -> Option<Seq<char>> {
    match raw {
        Some(s) => Some(s@),
        None => None,
    }
}

impl NodeRole {
    /// Parse the role, defaulting to [`NodeRole::Auto`] for unset / empty / unrecognised values
    /// (an unknown role must never hard-fail startup).
    pub fn parse(raw: Option<&str>) -> (r: NodeRole)
        ensures
            r == parse_node_role(opt_view(raw)),
    {
        match raw {
            Some(s) => {
                let n = normalized_chars(s);
                if chars_equal_str(&n, "leader") {
                    NodeRole::Leader
                } else if chars_equal_str(&n, "follower") {
                    NodeRole::Follower
                } else {
                    NodeRole::Auto
                }
            },
            None => NodeRole::Auto,
        }
    }

    /// Whether this role may campaign for leadership (only a pinned follower may not).
    pub fn may_promote(self) -> (r: bool)
        ensures
            r == (self != NodeRole::Follower),
    {
        !matches!(self, NodeRole::Follower)
    }
}

/// The role a node is in, cluster-side.
#[derive(Debug, Clone, Copy, PartialEq, Eq, Structural)]
pub enum RoleState {
    /// Not the writer — read-only, refuses writes.
    Follower,
    /// The writer-leader — the only node that appends.
    Leader,
}

/// The outcome of a lock/liveness operation the supervisor observed this tick.
#[derive(Debug, Clone, Copy, PartialEq, Eq, Structural)]
pub enum LockEvent {
    /// A follower acquired the writer advisory lock.
    Acquired,
    /// A leader confirmed it still holds the lock and owns the epoch.
    Held,
    /// A leader lost the lock / epoch / its session.
    Lost,
    /// A follower's promotion attempt found the lock held by a live leader.
    Unavailable,
}

/// The election state machine.
pub open spec fn next_role(current: RoleState, role: NodeRole, event: LockEvent) -> RoleState {
    match current {
        RoleState::Follower => if event == LockEvent::Acquired && role != NodeRole::Follower {
            RoleState::Leader
        } else {
            RoleState::Follower
        },
        RoleState::Leader => if event == LockEvent::Lost || event == LockEvent::Unavailable {
            RoleState::Follower
        } else {
            RoleState::Leader
        },
    }
}

/// **The election state machine.** A follower is promoted only by actually acquiring the lock and
/// only if allowed to lead; a leader steps down the instant it cannot prove it still holds the
/// lock.
pub fn transition(current: RoleState, role: NodeRole, event: LockEvent) -> (r: RoleState)
    ensures
        r == next_role(current, role, event),
{
    match current {
        RoleState::Follower => {
            if event == LockEvent::Acquired && role.may_promote() {
                RoleState::Leader
            } else {
                RoleState::Follower
            }
        },
        RoleState::Leader => {
            if event == LockEvent::Lost || event == LockEvent::Unavailable {
                RoleState::Follower
            } else {
                RoleState::Leader
            }
        },
    }
}

/// Laws of the election state machine: a pinned follower never becomes leader; the only way into
/// leadership is acquiring the lock; a leader that lost the lock is a follower whatever its role.
pub proof fn lemma_election_fail_closed(current: RoleState, role: NodeRole, event: LockEvent)
    ensures
        role == NodeRole::Follower && current == RoleState::Follower ==> next_role(
            current,
            role,
            event,
        ) == RoleState::Follower,
        current == RoleState::Follower && next_role(current, role, event) == RoleState::Leader
            ==> event == LockEvent::Acquired,
        current == RoleState::Leader && (event == LockEvent::Lost || event
            == LockEvent::Unavailable) ==> next_role(current, role, event) == RoleState::Follower,
        current == RoleState::Leader && next_role(current, role, event) == RoleState::Leader ==> (
        event == LockEvent::Held || event == LockEvent::Acquired),
{
}

// =================================================================================================
// Supervisor ticks
// =================================================================================================

/// What one supervisor poll produced.
#[derive(Debug, Clone, PartialEq, Eq)]
pub enum Tick {
    /// Still the leader (verified and, when due, heartbeated).
    StillLeader,
    /// Was leader, lost it — stepped down to follower.
    SteppedDown,
    /// Still a follower (or pinned follower).
    StillFollower,
    /// Just won the lock — the caller must run the handoff before writing.
    Promoted,
    /// A transient poll error; the loop retries next tick.
    Error(String),
}

/// Whether a leader tick should heartbeat: only when one is due and the fence verify succeeded (a
/// failed fence never heartbeats a dead session).
pub fn leader_should_heartbeat(verify_ok: bool, want_heartbeat: bool) -> (r: bool)
    ensures
        r == (verify_ok && want_heartbeat),
{
    verify_ok && want_heartbeat
}

/// The leader half of a supervisor poll: the lock is lost when the verify failed or a due heartbeat
/// failed; the outcome is folded through [`transition`].
pub fn leader_tick(role: NodeRole, verify_ok: bool, heartbeat_ok: Option<bool>) -> (r: Tick)
    ensures
        ({
            let lost = !verify_ok || heartbeat_ok == Some(false);
            let event = if lost {
                LockEvent::Lost
            } else {
                LockEvent::Held
            };
            match next_role(RoleState::Leader, role, event) {
                RoleState::Leader => r == Tick::StillLeader,
                RoleState::Follower => r == Tick::SteppedDown,
            }
        }),
        (!verify_ok || heartbeat_ok == Some(false)) <==> r == Tick::SteppedDown,
{
    let lost = !verify_ok || matches!(heartbeat_ok, Some(false));
    let event = if lost {
        LockEvent::Lost
    } else {
        LockEvent::Held
    };
    match transition(RoleState::Leader, role, event) {
        RoleState::Leader => Tick::StillLeader,
        RoleState::Follower => Tick::SteppedDown,
    }
}

/// The follower half of a supervisor poll, given the promotion attempt's outcome (`Ok(true)`: the
/// lock was acquired). A pinned follower never campaigns, so its attempt is `None`.
pub fn follower_tick(role: NodeRole, attempt: Option<Result<bool, String>>) -> (r: Tick)
    ensures
        match attempt {
            None => r == Tick::StillFollower,
            Some(Err(e)) => r == Tick::Error(e),
            Some(Ok(acquired)) => if acquired && role != NodeRole::Follower {
                r == Tick::Promoted
            } else {
                r == Tick::StillFollower
            },
        },
{
    match attempt {
        None => Tick::StillFollower,
        Some(Err(e)) => Tick::Error(e),
        Some(Ok(acquired)) => {
            let event = if acquired {
                LockEvent::Acquired
            } else {
                LockEvent::Unavailable
            };
            match transition(RoleState::Follower, role, event) {
                RoleState::Leader => Tick::Promoted,
                RoleState::Follower => Tick::StillFollower,
            }
        },
    }
}

// =================================================================================================
// Handoff
// =================================================================================================

/// Whether a loaded ledger of `loaded_len` events agrees with the durable `MAX(seq)`: an empty
/// durable table goes with an empty ledger, otherwise the length is `MAX(seq) + 1`.
pub open spec fn handoff_lengths_agree(loaded_len: nat, durable_max_seq: Option<i64>) -> bool {
    match durable_max_seq {
        Some(max) => 0 <= max && max < i64::MAX && loaded_len <= i64::MAX && loaded_len == max + 1,
        None => loaded_len == 0,
    }
}

/// The refusal message for a handoff whose lengths disagree.
pub open spec fn handoff_refusal(loaded_len: nat, durable_max_seq: Option<i64>) -> Seq<char> {
    match durable_max_seq {
        Some(max) => if max < 0 {
            "durable MAX(seq) is negative: "@ + dec_int(max as int)
        } else if loaded_len > i64::MAX {
            "loaded ledger length "@ + dec_nat(loaded_len) + " does not fit i64"@
        } else if max == i64::MAX {
            "durable MAX(seq) "@ + dec_int(max as int) + " cannot be incremented"@
        } else {
            "loaded ledger length "@ + dec_nat(loaded_len) + " does not match durable MAX(seq) "@
                + dec_int(max as int)
        },
        None => "durable MAX(seq) is NULL but loaded ledger length is "@ + dec_nat(loaded_len),
    }
}

/// The handoff gate's ledger-length check: the loaded ledger must hold exactly `MAX(seq) + 1`
/// events (none when the durable table is empty); anything else is refused with the reason.
pub fn validate_handoff_ledger_len(loaded_len: usize, durable_max_seq: Option<i64>) -> (r: Result<
    (),
    String,
>)
    ensures
        r is Ok <==> handoff_lengths_agree(loaded_len as nat, durable_max_seq),
        r matches Err(m) ==> m@ == handoff_refusal(loaded_len as nat, durable_max_seq),
{
    match durable_max_seq {
        Some(max) => {
            if max < 0 {
                let mut m = owned("durable MAX(seq) is negative: ");
                push_str(&mut m, i64_to_string(max).as_str());
                return Err(m);
            }
            if loaded_len as u128 > 0x7fff_ffff_ffff_ffffu128 {
                let mut m = owned("loaded ledger length ");
                push_str(&mut m, u64_to_string(loaded_len as u64).as_str());
                push_str(&mut m, " does not fit i64");
                return Err(m);
            }
            if max == 0x7fff_ffff_ffff_ffffi64 {
                let mut m = owned("durable MAX(seq) ");
                push_str(&mut m, i64_to_string(max).as_str());
                push_str(&mut m, " cannot be incremented");
                return Err(m);
            }
            if loaded_len as i64 == max + 1 {
                Ok(())
            } else {
                let mut m = owned("loaded ledger length ");
                push_str(&mut m, u64_to_string(loaded_len as u64).as_str());
                push_str(&mut m, " does not match durable MAX(seq) ");
                push_str(&mut m, i64_to_string(max).as_str());
                Err(m)
            }
        },
        None => {
            if loaded_len == 0 {
                Ok(())
            } else {
                let mut m = owned("durable MAX(seq) is NULL but loaded ledger length is ");
                push_str(&mut m, u64_to_string(loaded_len as u64).as_str());
                Err(m)
            }
        },
    }
}

// =================================================================================================
// Interval configuration
// =================================================================================================

/// A whole-seconds interval read from a raw configuration value: the trimmed value parsed as an
/// unsigned number, `default_secs` when unset or unparseable, and never below one second.
pub open spec fn interval_secs_spec(raw: Option<Seq<char>>, default_secs: u64) -> u64 {
    let parsed = match raw {
        Some(s) => match parse_u64_spec(trim(s)) {
            Some(n) => n,
            None => default_secs,
        },
        None => default_secs,
    };
    if parsed < 1 {
        1
    } else {
        parsed
    }
}

/// Parse a whole-seconds interval, falling back to `default_secs` and clamping to `>= 1` so a
/// misconfiguration can never busy-spin a poll loop.
pub fn interval_secs(raw: Option<&str>, default_secs: u64) -> (r: u64)
    ensures
        r == interval_secs_spec(opt_view(raw), default_secs),
        r >= 1,
{
    let parsed: u64 = match raw {
        Some(s) => {
            let t = trim_chars(s);
            match parse_u64(t.as_slice()) {
                Some(n) => n,
                None => default_secs,
            }
        },
        None => default_secs,
    };
    if parsed < 1 {
        1
    } else {
        parsed
    }
}

} // verus!
