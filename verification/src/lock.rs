//! The process-wide instance-exclusivity lock.
//!
//! The engine tolerates exactly one live instance per process; a second
//! one crashes the process. The lock is the one cross-thread piece of the
//! design: one atomic flag with compare-and-swap semantics, so racing
//! construction attempts produce exactly one winner. This value records
//! the lock's state together with a claim epoch that identifies the
//! current instance, so stale weak handles can be recognized.

use vstd::prelude::*;

verus! {

/// The exclusivity lock: claimed while an engine instance is live.
pub struct InstanceLock {
    /// Whether an instance currently holds the lock.
    pub claimed: bool,
    /// How many claims have succeeded so far; the value at claim time
    /// identifies the instance that holds the lock.
    pub epoch: u64,
}

/// One `try_claim` transition: `won` tells whether the caller took the
/// lock; a claimed lock stays claimed and keeps its epoch.
pub open spec fn claim_step(pre: InstanceLock, post: InstanceLock, won: bool) -> bool {
    &&& won == !pre.claimed
    &&& post.claimed
    &&& (won ==> post.epoch == pre.epoch + 1)
    &&& (!won ==> post.epoch == pre.epoch)
}

/// One `release` transition: the lock is cleared unconditionally.
pub open spec fn release_step(pre: InstanceLock, post: InstanceLock) -> bool {
    !post.claimed && post.epoch == pre.epoch
}

impl InstanceLock {
    /// A fresh, unclaimed lock.
    pub fn new() -> (l: InstanceLock)
        ensures
            !l.claimed,
            l.epoch == 0,
    {
        InstanceLock { claimed: false, epoch: 0 }
    }

    /// Atomically takes the lock if it is unclaimed; returns whether this
    /// caller won the race.
    pub fn try_claim(&mut self) -> (won: bool)
        requires
            old(self).epoch < u64::MAX,
        ensures
            claim_step(*old(self), *final(self), won),
    {
        if self.claimed {
            false
        } else {
            self.claimed = true;
            self.epoch = self.epoch + 1;
            true
        }
    }

    /// Unconditionally clears the claim. Every failure path of engine
    /// construction must route through this, or instance creation would
    /// deadlock for the rest of the process's life.
    pub fn release(&mut self)
        ensures
            release_step(*old(self), *final(self)),
    {
        self.claimed = false;
    }
}

/// Law: as long as one successful claim has not been released, every
/// further claim attempt fails.
pub proof fn lemma_instance_exclusivity(
    s0: InstanceLock,
    s1: InstanceLock,
    s2: InstanceLock,
    won1: bool,
    won2: bool,
)
    requires
        claim_step(s0, s1, won1),
        won1,
        claim_step(s1, s2, won2),
    ensures
        !won2,
{
}

/// Law: once the holder releases the lock, the very next claim attempt
/// succeeds.
pub proof fn lemma_release_reenables(
    s0: InstanceLock,
    s1: InstanceLock,
    s2: InstanceLock,
    won: bool,
)
    requires
        release_step(s0, s1),
        claim_step(s1, s2, won),
    ensures
        won,
{
}

} // verus!
