//! The fail-fast, multi-thread lock backend: the same counter as the
//! single-thread one, but with an encoding that one atomic read-modify-write
//! per transition can maintain.

use vstd::prelude::*;
use crate::lock::{Lock, LockModel, SendMarker};

verus! {

/// The bit that encodes "one exclusive holder": the highest bit of the word.
pub(crate) const ATOMIC_EXCLUSIVE_FLAG: usize = usize::MAX / 2 + 1;

/// An implementation of [`Lock`] with an atomic-friendly counter encoding.
///
/// In its concurrent form every transition of this backend is a single
/// compare-and-swap or fetch-and-add on the counter word, so the decision to
/// abort on contention is race-free; the counter transitions themselves are
/// what is verified here. Like [`crate::LocalLock`] it never suspends a
/// thread: at run time a contended `lock_shared` or `lock_exclusive`
/// aborts. An aborting path never returns, so those inputs are excluded by
/// the preconditions, and the `try` variants report them as `false`.
#[derive(Debug)]
pub struct AtomicLock {
    count: usize,
}

impl Lock for AtomicLock {
    // Any thread can lock.
    type LockMarker = SendMarker;

    // Any thread can unlock.
    type UnlockMarker = SendMarker;

    closed spec fn max_shared() -> nat {
        (ATOMIC_EXCLUSIVE_FLAG / 2) as nat
    }

    closed spec fn model(&self) -> LockModel {
        if self.count == ATOMIC_EXCLUSIVE_FLAG {
            LockModel::Exclusive
        } else if self.count == 0 {
            LockModel::Unlocked
        } else {
            LockModel::Shared { count: self.count as nat }
        }
    }

    closed spec fn wf(&self) -> bool {
        self.count <= ATOMIC_EXCLUSIVE_FLAG / 2 || self.count == ATOMIC_EXCLUSIVE_FLAG
    }

    proof fn lemma_wf_model(&self)
    {
    }

    fn new() -> (r: Self)
    {
        AtomicLock { count: 0 }
    }

    fn lock_shared(&mut self)
    {
        let _acquired = self.try_lock_shared();
    }

    fn try_lock_shared(&mut self) -> (r: bool)
    {
        // A speculative increment; the check on the previous value stops one
        // step short of the exclusive bit so the counter cannot overflow into
        // it.
        let old_count = self.count;
        self.count = old_count + 1;
        if old_count < ATOMIC_EXCLUSIVE_FLAG / 2 {
            true
        } else {
            // Contended or at the shared bound: revert the increment.
            self.count = self.count - 1;
            false
        }
    }

    fn unlock_shared(&mut self)
    {
        self.count = self.count - 1;
    }

    fn lock_exclusive(&mut self)
    {
        let _acquired = self.try_lock_exclusive();
    }

    fn try_lock_exclusive(&mut self) -> (r: bool)
    {
        // One compare-and-swap from 0 to the exclusive bit.
        if self.count == 0 {
            self.count = ATOMIC_EXCLUSIVE_FLAG;
            true
        } else {
            false
        }
    }

    fn unlock_exclusive(&mut self)
    {
        self.count = self.count - ATOMIC_EXCLUSIVE_FLAG;
    }
}

} // verus!
