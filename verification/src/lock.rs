//! A model of the host-wide exclusive lock.
//!
//! The real primitive is an OS advisory lock on the lock file; its grant
//! and release happen in the front end. This model captures the semantics
//! every cooperating process relies on: at most one holder at a time,
//! acquisition only when free (otherwise the caller blocks, which is not
//! an error), and a release that is idempotent — releasing a lock one does
//! not hold changes nothing, so the explicit release and the release on
//! handle teardown may both run.

use vstd::prelude::*;

verus! {

/// The holder after `who` releases: freed if `who` held it, otherwise
/// unchanged.
pub open spec fn released_holder(h: Option<u64>, who: u64) -> Option<u64> {
    if h == Some(who) {
        None
    } else {
        h
    }
}

/// The lock on one path, seen host-wide: the id of the current holder, if
/// any.
pub struct LockModel {
    pub holder: Option<u64>,
}

impl LockModel {
    /// A fresh lock: nobody holds it.
    pub fn new() -> (r: LockModel)
        ensures
            r.holder is None,
    {
        LockModel { holder: None }
    }

    /// `who` is granted the lock. The OS grants an exclusive lock only
    /// when it is free; a contender is blocked, not failed, so a grant
    /// presupposes no holder.
    pub fn acquire(&mut self, who: u64)
        requires
            old(self).holder is None,
        ensures
            final(self).holder == Some(who),
    {
        self.holder = Some(who);
    }

    /// `who` releases the lock. Safe whether or not `who` holds it.
    pub fn release(&mut self, who: u64)
        ensures
            final(self).holder == released_holder(old(self).holder, who),
    {
        let mine = match self.holder {
            Some(h) => h == who,
            None => false,
        };
        if mine {
            self.holder = None;
        }
    }
}

/// Releasing twice is the same as releasing once: the second release of an
/// already-released lock changes nothing.
pub proof fn lemma_release_idempotent(h: Option<u64>, who: u64)
    ensures
        released_holder(released_holder(h, who), who) == released_holder(h, who),
{
}

/// After the holder releases — once or twice — the lock is free, so a
/// subsequent acquire by any other contender is enabled: a redundant
/// release never deadlocks a waiter.
pub proof fn lemma_release_unblocks(who: u64)
    ensures
        released_holder(Some(who), who) is None,
        released_holder(released_holder(Some(who), who), who) is None,
{
}

} // verus!
