//! The blocking, multi-thread lock backend: an atomic counter word with a
//! "parked" bit.
//!
//! In its concurrent form, only the creating thread may lock (so at most one
//! thread can ever be parked on the word: the creator), while any thread may
//! unlock. A contended acquisition sets the parked bit and suspends the
//! creator; the release that empties the lock resets the word and wakes it.
//!
//! Two layers live here.
//!
//! - [`SyncLock`] carries the word through the [`Lock`] transitions. Parking
//!   suspends the caller until another thread releases the lock, so a
//!   contended `lock_shared`/`lock_exclusive` cannot return on its own; those
//!   inputs are excluded by the preconditions, and between calls the parked
//!   bit is never set (the only thread that parks is the one making the
//!   calls).
//! - The word-level decision functions ([`classify_shared_acquire`],
//!   [`unlock_shared_wakes`], [`unlock_exclusive_wakes`]) specify exactly
//!   what each atomic step of the concurrent fast/slow paths decides from the
//!   value it read. A runtime that owns a real atomic word and a thread-park
//!   primitive performs each read-modify-write and lets these functions make
//!   every decision on the result.

use vstd::prelude::*;
use crate::lock::{Lock, LockModel, NoSendMarker, SendMarker};

verus! {

/// The bit that encodes "the creating thread is parked on this word":
/// the highest bit.
pub const PARKED_FLAG: usize = usize::MAX / 2 + 1;

/// The bit that encodes "one exclusive holder": the second-highest bit.
pub const EXCLUSIVE_FLAG: usize = PARKED_FLAG / 2;

/// What the shared-acquisition fast path concludes from the counter value it
/// atomically incremented.
#[derive(Debug, Clone, Copy, PartialEq, Eq)]
pub enum SharedAcquireOutcome {
    /// The previous value was comfortably below the exclusive bit: the
    /// incremented word already counts the new holder.
    Acquired,
    /// The shared count would touch the reserved high range: the increment
    /// must be reverted and the acquisition refused rather than let the
    /// count wrap into the exclusive encoding.
    OverflowImminent,
    /// The lock is held exclusively: the caller must revert to a parked
    /// encoding and suspend itself until the release wakes it.
    Contended,
}

/// The decision of the shared fast path, taken on the counter value that an
/// atomic `fetch_add(1)` returned. The parked bit cannot be set in that
/// value: only the creator parks, and the creator is the caller.
pub fn classify_shared_acquire(old_count: usize) -> (r: SharedAcquireOutcome)
    requires
        old_count <= EXCLUSIVE_FLAG - 2 || old_count == EXCLUSIVE_FLAG,
    ensures
        r is Acquired <==> old_count < EXCLUSIVE_FLAG - 2,
        r is OverflowImminent <==> old_count == EXCLUSIVE_FLAG - 2,
        r is Contended <==> old_count == EXCLUSIVE_FLAG,
{
    if old_count < EXCLUSIVE_FLAG - 2 {
        SharedAcquireOutcome::Acquired
    } else if old_count == EXCLUSIVE_FLAG - 2 {
        SharedAcquireOutcome::OverflowImminent
    } else {
        SharedAcquireOutcome::Contended
    }
}

/// The word a contended shared acquisition parks on, and the word it expects
/// to find: the compare-and-swap of the shared slow path goes from
/// `EXCLUSIVE_FLAG + 1` (exclusive holder plus this caller's speculative
/// increment) to the parked encoding `PARKED_FLAG + EXCLUSIVE_FLAG`. If the
/// swap fails, the only other word the protocol allows there is `1`: the
/// exclusive holder released between the increment and the swap, leaving
/// exactly this caller's shared slot.
pub fn shared_park_exchange() -> (r: (usize, usize))
    ensures
        r.0 == EXCLUSIVE_FLAG + 1,
        r.1 == PARKED_FLAG + EXCLUSIVE_FLAG,
{
    (EXCLUSIVE_FLAG + 1, PARKED_FLAG + EXCLUSIVE_FLAG)
}

/// The decision of a shared release, taken on the counter value that an
/// atomic `fetch_sub(1)` returned: the word `PARKED_FLAG + 1` says that this
/// was the last shared holder and the creator is parked awaiting an
/// exclusive slot, so the releaser must reset the word to zero and wake it.
/// Any word that still carries another shared holder is below the parked
/// bit, so a wake decision never fires while readers remain.
pub fn unlock_shared_wakes(old_count: usize) -> (r: bool)
    ensures
        r <==> old_count == PARKED_FLAG + 1,
        old_count <= EXCLUSIVE_FLAG ==> !r,
{
    old_count == PARKED_FLAG + 1
}

/// The decision of an exclusive release, taken on the counter value that an
/// atomic `fetch_sub(EXCLUSIVE_FLAG)` returned: the word
/// `PARKED_FLAG + EXCLUSIVE_FLAG` says the creator is parked (awaiting
/// either kind of slot), so the releaser must reset the word to zero and
/// wake it.
pub fn unlock_exclusive_wakes(old_count: usize) -> (r: bool)
    ensures
        r <==> old_count == PARKED_FLAG + EXCLUSIVE_FLAG,
        old_count <= EXCLUSIVE_FLAG + 1 ==> !r,
{
    old_count == PARKED_FLAG + EXCLUSIVE_FLAG
}

/// An implementation of [`Lock`] that, in its concurrent form, suspends a
/// contended acquisition on a thread-park primitive instead of aborting.
/// Lock operations are tied to the creator thread, but unlock operations can
/// be done in any threads.
#[derive(Debug)]
pub struct SyncLock {
    count: usize,
}

impl Lock for SyncLock {
    // Only the creator thread can lock.
    type LockMarker = NoSendMarker;

    // Any thread can unlock.
    type UnlockMarker = SendMarker;

    closed spec fn max_shared() -> nat {
        (EXCLUSIVE_FLAG - 2) as nat
    }

    closed spec fn model(&self) -> LockModel {
        if self.count == EXCLUSIVE_FLAG {
            LockModel::Exclusive
        } else if self.count == 0 {
            LockModel::Unlocked
        } else {
            LockModel::Shared { count: self.count as nat }
        }
    }

    closed spec fn wf(&self) -> bool {
        self.count <= EXCLUSIVE_FLAG - 2 || self.count == EXCLUSIVE_FLAG
    }

    proof fn lemma_wf_model(&self)
    {
    }

    fn new() -> (r: Self)
    {
        SyncLock { count: 0 }
    }

    fn lock_shared(&mut self)
    {
        // The speculative increment of the fast path; the precondition
        // excludes the two inputs on which the slow path would not return
        // here (a parked wait, or the overflow abort).
        let old_count = self.count;
        self.count = old_count + 1;
    }

    fn try_lock_shared(&mut self) -> (r: bool)
    {
        let old_count = self.count;
        self.count = old_count + 1;
        match classify_shared_acquire(old_count) {
            SharedAcquireOutcome::Acquired => true,
            _ => {
                // Contended or at the shared bound: revert the increment.
                self.count = self.count - 1;
                false
            },
        }
    }

    fn unlock_shared(&mut self)
    {
        // In the concurrent form the releaser also checks the decremented
        // word against the parked encoding (`unlock_shared_wakes`); here the
        // parked bit cannot be set, since the one thread that parks is the
        // one driving these transitions.
        self.count = self.count - 1;
    }

    fn lock_exclusive(&mut self)
    {
        // The fast path: one look at the counter; the store needs no
        // read-modify-write because only the creator may lock. The contended
        // input (a parked wait) is excluded by the precondition.
        self.count = EXCLUSIVE_FLAG;
    }

    fn try_lock_exclusive(&mut self) -> (r: bool)
    {
        if self.count == 0 {
            self.count = EXCLUSIVE_FLAG;
            true
        } else {
            false
        }
    }

    fn unlock_exclusive(&mut self)
    {
        // As in `unlock_shared`, the concurrent form checks the subtracted
        // word against the parked encoding (`unlock_exclusive_wakes`), which
        // cannot be present here.
        self.count = self.count - EXCLUSIVE_FLAG;
    }
}

} // verus!
