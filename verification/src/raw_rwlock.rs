//! A standalone formulation of the readers-writer lock interface: the same
//! operation set as [`crate::Lock`], kept as its own trait so that a lock
//! can be offered or consumed without the rest of the cell machinery.

use vstd::prelude::*;
use core::marker::PhantomData;
use std::rc::Rc;
use crate::lock::{Lock, LockModel, SyncLock};
use crate::lock::{add_shared, can_add_shared, model_wf, remove_shared};

verus! {

/// Marker whose `Send`-ness says an operation may run on any thread.
#[derive(Debug, Clone, Copy, PartialEq, Eq, Hash)]
pub struct SendMarker(());

/// Marker whose `!Send`-ness ties an operation to the thread that created
/// the lock. The `Rc` inside the `PhantomData` is what makes the type
/// `!Send`.
#[derive(Debug, Clone, Copy, PartialEq, Eq, Hash)]
pub struct NoSendMarker(PhantomData<Rc<()>>);

/// A trait for readers-writer locks, specified over the same abstract
/// counter model as [`crate::Lock`]: every operation is a transition on a
/// [`LockModel`], the blocking and aborting acquisition paths carry the
/// contended states as preconditions, and the `try` variants are total.
pub trait RawRwLock: Sized {
    /// The `Send`-ness of this type indicates whether a lock can only be
    /// acquired by the same thread as `self`'s creator.
    type LockMarker;

    /// The `Send`-ness of this type indicates whether a lock can only be
    /// released by the same thread as the one that acquired it.
    type UnlockMarker;

    /// The largest shared count this backend's encoding can hold.
    spec fn max_shared() -> nat;

    /// The abstract state of the lock.
    spec fn model(&self) -> LockModel;

    /// The backend's internal invariant.
    spec fn wf(&self) -> bool;

    /// A well-formed lock has a well-formed model, and room for at least
    /// one shared holder.
    proof fn lemma_wf_model(&self)
        requires
            self.wf(),
        ensures
            model_wf(self.model(), Self::max_shared()),
            Self::max_shared() >= 1,
    ;

    /// Initialize the counter to unlocked.
    fn new() -> (r: Self)
        ensures
            r.wf(),
            r.model() is Unlocked,
            Self::max_shared() >= 1,
    ;

    /// Acquire a shared lock. A contended acquisition cannot return (the
    /// backend blocks or aborts), so the contended states are excluded
    /// here.
    fn lock_shared(&mut self)
        requires
            old(self).wf(),
            can_add_shared(old(self).model(), Self::max_shared()),
        ensures
            final(self).wf(),
            final(self).model() == add_shared(old(self).model()),
    ;

    /// Attempt to acquire a shared lock; `false` reports contention and
    /// leaves the state unchanged.
    fn try_lock_shared(&mut self) -> (r: bool)
        requires
            old(self).wf(),
        ensures
            final(self).wf(),
            r == can_add_shared(old(self).model(), Self::max_shared()),
            r ==> final(self).model() == add_shared(old(self).model()),
            !r ==> final(self).model() == old(self).model(),
    ;

    /// Release a shared lock. There must be a shared lock to release.
    fn unlock_shared(&mut self)
        requires
            old(self).wf(),
            old(self).model() is Shared,
        ensures
            final(self).wf(),
            final(self).model() == remove_shared(old(self).model()),
    ;

    /// Acquire an exclusive lock. A contended acquisition cannot return
    /// (the backend blocks or aborts), so only the unlocked state is
    /// admitted.
    fn lock_exclusive(&mut self)
        requires
            old(self).wf(),
            old(self).model() is Unlocked,
        ensures
            final(self).wf(),
            final(self).model() is Exclusive,
    ;

    /// Attempt to acquire an exclusive lock: succeeds exactly on an
    /// unlocked lock, and a failure has no side effect.
    fn try_lock_exclusive(&mut self) -> (r: bool)
        requires
            old(self).wf(),
        ensures
            final(self).wf(),
            r == (old(self).model() is Unlocked),
            r ==> final(self).model() is Exclusive,
            !r ==> final(self).model() == old(self).model(),
    ;

    /// Release an exclusive lock. There must be an exclusive lock to
    /// release.
    fn unlock_exclusive(&mut self)
        requires
            old(self).wf(),
            old(self).model() is Exclusive,
        ensures
            final(self).wf(),
            final(self).model() is Unlocked,
    ;
}

/// An implementation of [`RawRwLock`] over the blocking backend's counter:
/// it carries a [`SyncLock`] and takes each transition through it.
#[derive(Debug)]
pub struct StdRawRwLock {
    inner: SyncLock,
}

impl RawRwLock for StdRawRwLock {
    // Only the creator thread can lock.
    type LockMarker = NoSendMarker;

    // Any thread can unlock.
    type UnlockMarker = SendMarker;

    closed spec fn max_shared() -> nat {
        <SyncLock as Lock>::max_shared()
    }

    closed spec fn model(&self) -> LockModel {
        self.inner.model()
    }

    closed spec fn wf(&self) -> bool {
        self.inner.wf()
    }

    proof fn lemma_wf_model(&self)
    {
        self.inner.lemma_wf_model();
    }

    fn new() -> (r: Self)
    {
        StdRawRwLock { inner: <SyncLock as Lock>::new() }
    }

    fn lock_shared(&mut self)
    {
        self.inner.lock_shared();
    }

    fn try_lock_shared(&mut self) -> (r: bool)
    {
        self.inner.try_lock_shared()
    }

    fn unlock_shared(&mut self)
    {
        self.inner.unlock_shared();
    }

    fn lock_exclusive(&mut self)
    {
        self.inner.lock_exclusive();
    }

    fn try_lock_exclusive(&mut self) -> (r: bool)
    {
        self.inner.try_lock_exclusive()
    }

    fn unlock_exclusive(&mut self)
    {
        self.inner.unlock_exclusive();
    }
}

} // verus!
