//! The lock capability: a readers-writer lock interface with a mathematical
//! model of the lock state, plus the marker types that describe thread
//! affinity.

use vstd::prelude::*;
use core::marker::PhantomData;
use std::rc::Rc;

mod local;
mod panicking;
mod stdimp;

pub use local::LocalLock;
pub use panicking::AtomicLock;
pub use stdimp::{
    EXCLUSIVE_FLAG, PARKED_FLAG, SharedAcquireOutcome, SyncLock, classify_shared_acquire,
    shared_park_exchange, unlock_exclusive_wakes, unlock_shared_wakes,
};

verus! {

/// Marker whose `Send`-ness says an operation may run on any thread.
#[derive(Debug, Clone, Copy, PartialEq, Eq, Hash)]
pub struct SendMarker(());

/// Marker whose `!Send`-ness ties an operation to the thread that created the
/// lock. The `Rc` inside the `PhantomData` is what makes the type `!Send`.
#[derive(Debug, Clone, Copy, PartialEq, Eq, Hash)]
pub struct NoSendMarker(PhantomData<Rc<()>>);

/// The abstract state of a readers-writer lock: a single counter with three
/// disjoint encodings.
pub enum LockModel {
    /// Nobody holds the lock.
    Unlocked,
    /// `count` holders share the lock; `count` is at least 1.
    Shared { count: nat },
    /// Exactly one holder has the lock exclusively.
    Exclusive,
}

/// How many holders share the lock: 0 unless the model is `Shared`.
pub open spec fn shared_count(m: LockModel) -> nat {
    match m {
        LockModel::Shared { count } => count,
        _ => 0,
    }
}

/// Whether one more shared holder fits: the lock must not be held exclusively
/// and the shared count must be below the backend's bound.
pub open spec fn can_add_shared(m: LockModel, max: nat) -> bool {
    !(m is Exclusive) && shared_count(m) < max
}

/// The state after one more shared holder arrives.
pub open spec fn add_shared(m: LockModel) -> LockModel
    recommends
        !(m is Exclusive),
{
    LockModel::Shared { count: shared_count(m) + 1 }
}

/// The state after one shared holder leaves: back to `Unlocked` when it was
/// the last one.
pub open spec fn remove_shared(m: LockModel) -> LockModel
    recommends
        m is Shared,
{
    if shared_count(m) <= 1 {
        LockModel::Unlocked
    } else {
        LockModel::Shared { count: (shared_count(m) - 1) as nat }
    }
}

/// A well-formed model keeps the shared count in `1 ..= max`.
pub open spec fn model_wf(m: LockModel, max: nat) -> bool {
    m matches LockModel::Shared { count } ==> 1 <= count <= max
}

/// The net number of holders that a sequence of shared acquire (`true`) and
/// release (`false`) events leaves behind.
pub open spec fn net_shared(evs: Seq<bool>) -> int
    decreases evs.len(),
{
    if evs.len() == 0 {
        0
    } else {
        net_shared(evs.drop_last()) + if evs.last() {
            1
        } else {
            -1
        }
    }
}

/// The lock state that a sequence of shared acquire (`true`) and release
/// (`false`) events drives an initial state to, one [`add_shared`] or
/// [`remove_shared`] transition per event.
pub open spec fn apply_shared_events(m: LockModel, evs: Seq<bool>) -> LockModel
    decreases evs.len(),
{
    if evs.len() == 0 {
        m
    } else {
        let prev = apply_shared_events(m, evs.drop_last());
        if evs.last() {
            add_shared(prev)
        } else {
            remove_shared(prev)
        }
    }
}

/// A sequence of shared events is balanced for the bound `max` when no
/// prefix releases more than was acquired, nor holds more than `max` at
/// once.
pub open spec fn shared_events_ok(evs: Seq<bool>, max: nat) -> bool {
    forall|i: int| 0 <= i <= evs.len() ==> 0 <= #[trigger] net_shared(evs.take(i)) <= max
}

/// Through any balanced sequence of shared acquisitions and releases,
/// starting from the unlocked state, the number of live holders —
/// acquisitions minus releases so far — equals the model's shared count at
/// every point; the lock is unlocked exactly at the points where they
/// balance out, and is never driven to the exclusive state.
pub proof fn lemma_shared_events_track_count(evs: Seq<bool>, max: nat, i: int)
    requires
        shared_events_ok(evs, max),
        0 <= i <= evs.len(),
    ensures
        shared_count(apply_shared_events(LockModel::Unlocked, evs.take(i))) == net_shared(
            evs.take(i),
        ),
        apply_shared_events(LockModel::Unlocked, evs.take(i)) is Unlocked <==> net_shared(
            evs.take(i),
        ) == 0,
        apply_shared_events(LockModel::Unlocked, evs.take(i)) is Shared <==> net_shared(
            evs.take(i),
        ) > 0,
    decreases i,
{
    if i == 0 {
        assert(evs.take(0) =~= Seq::<bool>::empty());
    } else {
        lemma_shared_events_track_count(evs, max, i - 1);
        assert(evs.take(i).drop_last() =~= evs.take(i - 1));
        assert(0 <= net_shared(evs.take(i)));
        assert(0 <= net_shared(evs.take(i - 1)));
    }
}

/// One shared acquisition followed by one shared release puts the lock
/// state back where it was.
pub proof fn lemma_add_remove_shared_roundtrip(m: LockModel)
    requires
        !(m is Exclusive),
        m matches LockModel::Shared { count } ==> count >= 1,
    ensures
        remove_shared(add_shared(m)) == m,
{
}

/// A balanced sequence of shared acquisitions and releases with as many
/// releases as acquisitions returns the lock to the unlocked state after
/// the last release.
pub proof fn lemma_balanced_shared_events_unlock(evs: Seq<bool>, max: nat)
    requires
        shared_events_ok(evs, max),
        net_shared(evs) == 0,
    ensures
        apply_shared_events(LockModel::Unlocked, evs) is Unlocked,
{
    lemma_shared_events_track_count(evs, max, evs.len() as int);
    assert(evs.take(evs.len() as int) =~= evs);
}

/// A trait for readers-writer locks.
///
/// The lock owns one counter, abstracted as a [`LockModel`]; every operation
/// is specified as a transition on that model. The blocking and aborting
/// acquisition paths cannot return on a contended lock, so the operations
/// that take them carry the contended states as preconditions; the `try`
/// variants are total and report contention as `false`.
pub trait Lock: Sized {
    /// The `Send`-ness of this type indicates whether a lock can only be
    /// acquired by the same thread as `self`'s creator.
    type LockMarker;

    /// The `Send`-ness of this type indicates whether a lock can only be
    /// released by the same thread as the one that acquired it.
    type UnlockMarker;

    /// The largest shared count this backend's encoding can hold.
    spec fn max_shared() -> nat;

    /// The abstract state of the lock.
    spec fn model(&self) -> LockModel;

    /// The backend's internal invariant.
    spec fn wf(&self) -> bool;

    /// A well-formed lock has a well-formed model, and room for at least one
    /// shared holder.
    proof fn lemma_wf_model(&self)
        requires
            self.wf(),
        ensures
            model_wf(self.model(), Self::max_shared()),
            Self::max_shared() >= 1,
    ;

    /// Initialize the counter to unlocked.
    fn new() -> (r: Self)
        ensures
            r.wf(),
            r.model() is Unlocked,
            Self::max_shared() >= 1,
    ;

    /// Acquire a shared lock. A contended acquisition cannot return (the
    /// backend blocks or aborts), so the contended states are excluded here.
    fn lock_shared(&mut self)
        requires
            old(self).wf(),
            can_add_shared(old(self).model(), Self::max_shared()),
        ensures
            final(self).wf(),
            final(self).model() == add_shared(old(self).model()),
    ;

    /// Attempt to acquire a shared lock; `false` reports contention and
    /// leaves the state unchanged. In particular, while the lock is held
    /// exclusively this always returns `false` and leaves the counter in
    /// the exclusive state.
    fn try_lock_shared(&mut self) -> (r: bool)
        requires
            old(self).wf(),
        ensures
            final(self).wf(),
            r == can_add_shared(old(self).model(), Self::max_shared()),
            r ==> final(self).model() == add_shared(old(self).model()),
            !r ==> final(self).model() == old(self).model(),
            old(self).model() is Exclusive ==> !r && final(self).model() is Exclusive,
    ;

    /// Release a shared lock. There must be a shared lock to release.
    fn unlock_shared(&mut self)
        requires
            old(self).wf(),
            old(self).model() is Shared,
        ensures
            final(self).wf(),
            final(self).model() == remove_shared(old(self).model()),
    ;

    /// Acquire an exclusive lock. A contended acquisition cannot return (the
    /// backend blocks or aborts), so only the unlocked state is admitted.
    fn lock_exclusive(&mut self)
        requires
            old(self).wf(),
            old(self).model() is Unlocked,
        ensures
            final(self).wf(),
            final(self).model() is Exclusive,
    ;

    /// Attempt to acquire an exclusive lock: succeeds exactly on an unlocked
    /// lock, and a failure has no side effect.
    fn try_lock_exclusive(&mut self) -> (r: bool)
        requires
            old(self).wf(),
        ensures
            final(self).wf(),
            r == (old(self).model() is Unlocked),
            r ==> final(self).model() is Exclusive,
            !r ==> final(self).model() == old(self).model(),
    ;

    /// Release an exclusive lock. There must be an exclusive lock to release.
    fn unlock_exclusive(&mut self)
        requires
            old(self).wf(),
            old(self).model() is Exclusive,
        ensures
            final(self).wf(),
            final(self).model() is Unlocked,
    ;
}

} // verus!
