//! An in-process model of ONE database advisory lock shared by several cluster members, driven only
//! through the election state machine ([`crate::cluster::transition`]).
//!
//! It mirrors the two properties the election rests on: at most one session holds the key at a
//! time (`try_acquire` succeeds for exactly one), and the lock is released when its holding session
//! dies. A monotonic epoch is bumped on each acquisition and fences stale leaders.
use vstd::prelude::*;

use crate::cluster::{next_role, transition, LockEvent, NodeRole, RoleState};

verus! {

/// The single advisory lock: who holds it and the current leader epoch.
#[derive(Debug, Clone, Copy, PartialEq, Eq, Default)]
pub struct SharedLock {
    pub holder: Option<usize>,
    pub epoch: i64,
}

impl SharedLock {
    /// A free lock at epoch 0.
    pub fn new() -> (r: SharedLock)
        ensures
            r.holder is None,
            r.epoch == 0,
    {
        SharedLock { holder: None, epoch: 0 }
    }

    /// `pg_try_advisory_lock`: succeeds (and bumps the epoch) unless another node holds the lock.
    /// Returns the epoch the winner now owns, or `None` when someone else holds it.
    pub fn try_acquire(&mut self, node: usize) -> (r: Option<i64>)
        requires
            old(self).epoch < i64::MAX,
        ensures
            match old(self).holder {
                Some(h) if h != node => r is None && *final(self) == *old(self),
                _ => {
                    &&& final(self).holder == Some(node)
                    &&& final(self).epoch == old(self).epoch + 1
                    &&& r == Some(final(self).epoch)
                },
            },
    {
        match self.holder {
            Some(h) if h != node => None,
            _ => {
                self.holder = Some(node);
                self.epoch = self.epoch + 1;
                Some(self.epoch)
            },
        }
    }

    /// Session death (crash / partition): the holder releases the lock; anyone else is a no-op.
    pub fn release_if_holder(&mut self, node: usize)
        ensures
            final(self).epoch == old(self).epoch,
            final(self).holder == (if old(self).holder == Some(node) {
                None
            } else {
                old(self).holder
            }),
    {
        if self.holder == Some(node) {
            self.holder = None;
        }
    }

    /// The current leader epoch.
    pub fn current_epoch(&self) -> (r: i64)
        ensures
            r == self.epoch,
    {
        self.epoch
    }

    /// The node holding the lock, if any.
    pub fn holder(&self) -> (r: Option<usize>)
        ensures
            r == self.holder,
    {
        self.holder
    }
}

/// A simulated member. Its role changes only through the election state machine.
#[derive(Debug, Clone, Copy, PartialEq, Eq)]
pub struct Member {
    pub id: usize,
    pub node_role: NodeRole,
    pub role: RoleState,
    pub my_epoch: i64,
}

impl Member {
    /// A member that boots as a follower owning no epoch.
    pub fn new(id: usize, node_role: NodeRole) -> (r: Member)
        ensures
            r.id == id,
            r.node_role == node_role,
            r.role == RoleState::Follower,
            r.my_epoch == -1,
    {
        Member { id, node_role, role: RoleState::Follower, my_epoch: -1 }
    }

    /// One promotion poll: a follower that may lead tries the lock and folds the outcome through
    /// the state machine; a pinned follower never contends; a leader does nothing.
    pub fn poll_promote(&mut self, lock: &mut SharedLock)
        requires
            old(lock).epoch < i64::MAX,
        ensures
            final(self).id == old(self).id,
            final(self).node_role == old(self).node_role,
            old(self).role == RoleState::Leader ==> *final(self) == *old(self) && *final(lock)
                == *old(lock),
            old(self).role == RoleState::Follower && old(self).node_role == NodeRole::Follower ==> (
            *final(self) == *old(self) && *final(lock) == *old(lock)),
            old(self).role == RoleState::Follower && old(self).node_role != NodeRole::Follower ==> if
            old(lock).holder is None || old(lock).holder == Some(old(self).id) {
                &&& final(lock).holder == Some(old(self).id)
                &&& final(lock).epoch == old(lock).epoch + 1
                &&& final(self).role == RoleState::Leader
                &&& final(self).my_epoch == final(lock).epoch
            } else {
                &&& *final(lock) == *old(lock)
                &&& *final(self) == *old(self)
            },
            final(self).role == RoleState::Leader && old(self).role == RoleState::Follower ==> (
            final(lock).holder == Some(old(self).id) && final(self).my_epoch == final(lock).epoch
                && final(lock).epoch == old(lock).epoch + 1),
            final(lock).holder == old(lock).holder || final(lock).holder == Some(old(self).id),
            final(lock).epoch == old(lock).epoch || final(lock).epoch == old(lock).epoch + 1,
            old(lock).holder is Some && old(lock).holder != Some(old(self).id) ==> *final(lock)
                == *old(lock),
    {
        if self.role != RoleState::Follower {
            return;
        }
        if !self.node_role.may_promote() {
            self.role = transition(self.role, self.node_role, LockEvent::Unavailable);
            return;
        }
        let event = match lock.try_acquire(self.id) {
            Some(epoch) => {
                self.my_epoch = epoch;
                LockEvent::Acquired
            },
            None => LockEvent::Unavailable,
        };
        self.role = transition(self.role, self.node_role, event);
    }

    /// One leader verify tick: still the sole holder and still owning the current epoch? Any doubt
    /// steps down through the state machine.
    pub fn poll_verify(&mut self, lock: &SharedLock)
        ensures
            final(self).id == old(self).id,
            final(self).node_role == old(self).node_role,
            final(self).my_epoch == old(self).my_epoch,
            old(self).role == RoleState::Follower ==> final(self).role == RoleState::Follower,
            final(self).role == RoleState::Leader <==> (old(self).role == RoleState::Leader
                && lock.holder == Some(old(self).id) && lock.epoch == old(self).my_epoch),
    {
        if self.role != RoleState::Leader {
            return;
        }
        let holds = lock.holder() == Some(self.id) && lock.current_epoch() == self.my_epoch;
        let event = if holds {
            LockEvent::Held
        } else {
            LockEvent::Lost
        };
        self.role = transition(self.role, self.node_role, event);
    }

    /// Whether this member currently leads.
    pub fn is_leader(&self) -> (r: bool)
        ensures
            r == (self.role == RoleState::Leader),
    {
        self.role == RoleState::Leader
    }
}

/// Every leader among `ms` holds the lock and owns its current epoch.
pub open spec fn leaders_hold_lock(ms: Seq<Member>, lock: SharedLock) -> bool {
    forall|i: int|
        0 <= i < ms.len() && (#[trigger] ms[i]).role == RoleState::Leader ==> lock.holder == Some(
            ms[i].id,
        ) && lock.epoch == ms[i].my_epoch
}

/// Member ids are pairwise distinct.
pub open spec fn distinct_ids(ms: Seq<Member>) -> bool {
    forall|i: int, j: int|
        0 <= i < ms.len() && 0 <= j < ms.len() && i != j ==> (#[trigger] ms[i]).id != (
        #[trigger] ms[j]).id
}

/// Drive the cluster to a stable state: everyone polls to promote, then every leader verifies.
/// Afterwards every leader holds the lock and owns its epoch.
pub fn settle(members: &mut Vec<Member>, lock: &mut SharedLock)
    requires
        old(lock).epoch + old(members)@.len() < i64::MAX,
    ensures
        final(members)@.len() == old(members)@.len(),
        forall|i: int|
            0 <= i < final(members)@.len() ==> (#[trigger] final(members)@[i]).id == old(
                members,
            )@[i].id && final(members)@[i].node_role == old(members)@[i].node_role,
        leaders_hold_lock(final(members)@, *final(lock)),
        final(lock).epoch <= old(lock).epoch + old(members)@.len(),
{
    let n = members.len();
    let ghost orig = members@;
    let ghost start_epoch = lock.epoch;
    let mut i: usize = 0;
    while i < n
        invariant
            n == members@.len(),
            orig.len() == n,
            0 <= i <= n,
            start_epoch + n < i64::MAX,
            lock.epoch <= start_epoch + i,
            forall|k: int|
                0 <= k < n ==> (#[trigger] members@[k]).id == orig[k].id && members@[k].node_role
                    == orig[k].node_role,
        decreases n - i,
    {
        let mut m = members[i];
        m.poll_promote(lock);
        members.set(i, m);
        i += 1;
    }
    let mut j: usize = 0;
    while j < n
        invariant
            n == members@.len(),
            orig.len() == n,
            0 <= j <= n,
            lock.epoch <= start_epoch + n,
            forall|k: int|
                0 <= k < n ==> (#[trigger] members@[k]).id == orig[k].id && members@[k].node_role
                    == orig[k].node_role,
            leaders_hold_lock(members@.take(j as int), *lock),
        decreases n - j,
    {
        let mut m = members[j];
        let ghost prev = members@;
        m.poll_verify(lock);
        members.set(j, m);
        proof {
            assert(members@.take(j as int) == prev.take(j as int));
            assert(members@.take(j + 1) == members@.take(j as int).push(m));
            let t = members@.take(j + 1);
            assert forall|k: int|
                0 <= k < t.len() && (#[trigger] t[k]).role == RoleState::Leader implies lock.holder
                == Some(t[k].id) && lock.epoch == t[k].my_epoch by {
                if k < j {
                    assert(t[k] == prev.take(j as int)[k]);
                }
            }
        }
        j += 1;
    }
    assert(members@.take(n as int) == members@);
}

/// **The single-writer guarantee:** when every leader holds the one lock, two members with distinct
/// ids are never both leaders.
pub proof fn lemma_at_most_one_leader(ms: Seq<Member>, lock: SharedLock, i: int, j: int)
    requires
        leaders_hold_lock(ms, lock),
        distinct_ids(ms),
        0 <= i < ms.len(),
        0 <= j < ms.len(),
        i != j,
    ensures
        !(ms[i].role == RoleState::Leader && ms[j].role == RoleState::Leader),
{
}

/// Every successful acquisition bumps the epoch strictly above every epoch handed out before, so a
/// deposed leader's epoch can never match the current one again.
pub proof fn lemma_acquisition_fences_older_epochs(before: SharedLock, after: SharedLock, old_epoch: i64)
    requires
        old_epoch <= before.epoch,
        after.epoch == before.epoch + 1,
    ensures
        after.epoch > old_epoch,
{
}

/// A pinned follower never leads: its promotion poll leaves it a follower and the lock untouched.
pub proof fn lemma_pinned_follower_never_leads(current: RoleState, event: LockEvent)
    ensures
        current == RoleState::Follower ==> next_role(current, NodeRole::Follower, event)
            == RoleState::Follower,
{
}

} // verus!
