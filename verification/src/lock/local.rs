//! The fail-fast, single-thread lock backend: a plain counter.

use vstd::prelude::*;
use crate::lock::{Lock, LockModel, NoSendMarker};

verus! {

/// The counter value that encodes "one exclusive holder".
pub(crate) const LOCAL_EXCLUSIVE: usize = usize::MAX;

/// A single-thread implementation of [`Lock`].
///
/// Contention is a logic error here: there is no other thread that could
/// ever release the lock, so a blocking acquisition would hang forever, and
/// at run time a contended `lock_shared` or `lock_exclusive` aborts instead.
/// An aborting path never returns, so those inputs are excluded by the
/// operations' preconditions, and the `try` variants report them as `false`.
#[derive(Clone, Debug)]
pub struct LocalLock {
    count: usize,
}

impl Lock for LocalLock {
    // Both lock and unlock operations are tied to the creating thread.
    type LockMarker = NoSendMarker;

    type UnlockMarker = NoSendMarker;

    closed spec fn max_shared() -> nat {
        (LOCAL_EXCLUSIVE - 1) as nat
    }

    closed spec fn model(&self) -> LockModel {
        if self.count == LOCAL_EXCLUSIVE {
            LockModel::Exclusive
        } else if self.count == 0 {
            LockModel::Unlocked
        } else {
            LockModel::Shared { count: self.count as nat }
        }
    }

    closed spec fn wf(&self) -> bool {
        true
    }

    proof fn lemma_wf_model(&self)
    {
    }

    fn new() -> (r: Self)
    {
        LocalLock { count: 0 }
    }

    fn lock_shared(&mut self)
    {
        self.count = self.count + 1;
    }

    fn try_lock_shared(&mut self) -> (r: bool)
    {
        if self.count >= LOCAL_EXCLUSIVE - 1 {
            false
        } else {
            self.count = self.count + 1;
            true
        }
    }

    fn unlock_shared(&mut self)
    {
        self.count = self.count - 1;
    }

    fn lock_exclusive(&mut self)
    {
        self.count = LOCAL_EXCLUSIVE;
    }

    fn try_lock_exclusive(&mut self) -> (r: bool)
    {
        if self.count != 0 {
            false
        } else {
            self.count = LOCAL_EXCLUSIVE;
            true
        }
    }

    fn unlock_exclusive(&mut self)
    {
        self.count = 0;
    }
}

} // verus!
