//! A cell-like container that constrains the lifetime of a protected value
//! through a runtime readers-writer lock, together with the lock backends it
//! is built on.
//!
//! A [`Cryo`] protects a shared reference and a [`CryoMut`] protects an owned
//! value; both hand out guard tokens for every acquisition and demand them
//! back for every release, and neither can be torn down while a guard slot is
//! still taken. The lock state is one counter with three disjoint encodings
//! (unlocked, shared holders, one exclusive holder); every operation is
//! specified as a transition on that counter's abstract model, and the
//! teardown step is exactly an exclusive acquisition, so it succeeds only
//! when no guard remains.

use vstd::prelude::*;
use core::marker::PhantomData;

mod lock;

pub use lock::{
    AtomicLock, EXCLUSIVE_FLAG, Lock, LockModel, LocalLock, NoSendMarker, PARKED_FLAG, SendMarker,
    SharedAcquireOutcome, SyncLock, add_shared, apply_shared_events, can_add_shared,
    classify_shared_acquire, lemma_add_remove_shared_roundtrip,
    lemma_balanced_shared_events_unlock, lemma_shared_events_track_count,
    model_wf, net_shared, remove_shared, shared_count, shared_events_ok, shared_park_exchange,
    unlock_exclusive_wakes, unlock_shared_wakes,
};

pub mod raw_rwlock;

verus! {

/// The lock guard type of [`Cryo`]. This is currently a type alias but might
/// change in a future.
pub type CryoRef = CryoMutReadGuard;

/// The read lock guard type of [`CryoMut`] (and, through [`CryoRef`], of
/// [`Cryo`]): an opaque token standing for one shared slot of the lock. It
/// is handed out by a successful shared acquisition and taken back by the
/// release that gives the slot up.
#[derive(Debug)]
pub struct CryoMutReadGuard {
    _token: (),
}

/// The write lock guard type of [`CryoMut`]: an opaque token standing for
/// the one exclusive slot of the lock.
#[derive(Debug)]
pub struct CryoMutWriteGuard {
    _token: (),
}

/// A cell that hands out shared borrows of a referenced value under a
/// runtime readers-writer lock.
///
/// `Cryo` is a variation of [`CryoMut`] that only can be immutably borrowed.
/// Every borrow takes one shared slot of the lock and returns a [`CryoRef`]
/// token; the slot is given back by [`Cryo::release`]. The teardown step
/// ([`Cryo::teardown`]) stands for the cell's destruction: it performs the
/// exclusive acquisition that proves no borrow remains, so it admits only
/// the fully-released lock state — on any other state the backend would
/// block forever or abort.
#[derive(Debug)]
pub struct Cryo<'a, T, L: Lock> {
    value: &'a T,
    lock: L,
}

impl<'a, T, L: Lock> Cryo<'a, T, L> {
    /// The protected value.
    pub closed spec fn contents(&self) -> T {
        *self.value
    }

    /// The abstract state of the cell's lock.
    pub closed spec fn lock_model(&self) -> LockModel {
        self.lock.model()
    }

    /// The cell's internal invariant.
    pub closed spec fn wf(&self) -> bool {
        self.lock.wf()
    }

    /// A well-formed cell has a well-formed lock model.
    pub proof fn lemma_wf_model(&self)
        requires
            self.wf(),
        ensures
            model_wf(self.lock_model(), L::max_shared()),
            L::max_shared() >= 1,
    {
        self.lock.lemma_wf_model();
    }

    /// Construct a new `Cryo` over a reference, with the lock unlocked.
    pub fn new(x: &'a T) -> (r: Self)
        ensures
            r.wf(),
            r.lock_model() is Unlocked,
            r.contents() == *x,
            L::max_shared() >= 1,
    {
        Cryo { value: x, lock: L::new() }
    }

    /// Borrow the cell using runtime lifetime rules: take one shared slot of
    /// the lock. The contended and counter-exhausted states are excluded, as
    /// in [`Lock::lock_shared`].
    pub fn borrow(&mut self) -> (g: CryoRef)
        requires
            old(self).wf(),
            can_add_shared(old(self).lock_model(), L::max_shared()),
        ensures
            final(self).wf(),
            final(self).lock_model() == add_shared(old(self).lock_model()),
            final(self).contents() == old(self).contents(),
    {
        self.lock.lock_shared();
        CryoRef { _token: () }
    }

    /// Clone an outstanding borrow: take one more shared slot. This stands
    /// for the guard's own `clone`, which re-enters the shared acquisition.
    pub fn clone_borrow(&mut self, _g: &CryoRef) -> (g: CryoRef)
        requires
            old(self).wf(),
            old(self).lock_model() is Shared,
            can_add_shared(old(self).lock_model(), L::max_shared()),
        ensures
            final(self).wf(),
            final(self).lock_model() == add_shared(old(self).lock_model()),
            final(self).contents() == old(self).contents(),
    {
        self.lock.lock_shared();
        CryoRef { _token: () }
    }

    /// Give a borrow's shared slot back. This stands for the guard's
    /// destruction.
    pub fn release(&mut self, g: CryoRef)
        requires
            old(self).wf(),
            old(self).lock_model() is Shared,
        ensures
            final(self).wf(),
            final(self).lock_model() == remove_shared(old(self).lock_model()),
            final(self).contents() == old(self).contents(),
    {
        let CryoRef { _token } = g;
        self.lock.unlock_shared();
    }

    /// Borrow the cell using compile-time lifetime rules.
    ///
    /// This operation is no-op since `Cryo` only can be immutably borrowed.
    pub fn get(&self) -> (r: &'a T)
        ensures
            *r == self.contents(),
    {
        self.value
    }

    /// Tear the cell down. The destruction of the cell performs an exclusive
    /// acquisition to prove that no borrow remains; only the fully-released
    /// state lets that acquisition return, so only that state is admitted
    /// here.
    pub fn teardown(self)
        requires
            self.wf(),
            self.lock_model() is Unlocked,
    {
        let Cryo { value: _, lock } = self;
        let mut lock = lock;
        lock.lock_exclusive();
        // A write lock ensures there are no other references to the
        // contents; the lock is discarded with the cell.
    }
}

/// A cell that hands out shared and exclusive borrows of an owned value
/// under a runtime readers-writer lock.
///
/// `CryoMut` is a variation of [`Cryo`] that can be mutably borrowed. A
/// shared acquisition returns a [`CryoMutReadGuard`] token and an exclusive
/// acquisition a [`CryoMutWriteGuard`] token; the value is reached through
/// the cell by presenting the token, and each slot is given back by the
/// matching release. Tearing the cell down ([`CryoMut::into_inner`])
/// performs the exclusive acquisition that proves no guard remains, so it
/// admits only the fully-released lock state.
#[derive(Debug)]
pub struct CryoMut<T, L: Lock> {
    value: T,
    lock: L,
}

impl<T, L: Lock> CryoMut<T, L> {
    /// The protected value.
    pub closed spec fn contents(&self) -> T {
        self.value
    }

    /// The abstract state of the cell's lock.
    pub closed spec fn lock_model(&self) -> LockModel {
        self.lock.model()
    }

    /// The cell's internal invariant.
    pub closed spec fn wf(&self) -> bool {
        self.lock.wf()
    }

    /// A well-formed cell has a well-formed lock model.
    pub proof fn lemma_wf_model(&self)
        requires
            self.wf(),
        ensures
            model_wf(self.lock_model(), L::max_shared()),
            L::max_shared() >= 1,
    {
        self.lock.lemma_wf_model();
    }

    /// Construct a new `CryoMut` over a value, with the lock unlocked.
    pub fn new(x: T) -> (r: Self)
        ensures
            r.wf(),
            r.lock_model() is Unlocked,
            r.contents() == x,
            L::max_shared() >= 1,
    {
        CryoMut { value: x, lock: L::new() }
    }

    /// Acquire a read (shared) lock on a `CryoMut`. The contended and
    /// counter-exhausted states are excluded, as in [`Lock::lock_shared`].
    pub fn read(&mut self) -> (g: CryoMutReadGuard)
        requires
            old(self).wf(),
            can_add_shared(old(self).lock_model(), L::max_shared()),
        ensures
            final(self).wf(),
            final(self).lock_model() == add_shared(old(self).lock_model()),
            final(self).contents() == old(self).contents(),
    {
        self.lock.lock_shared();
        CryoMutReadGuard { _token: () }
    }

    /// Attempt to acquire a read (shared) lock on a `CryoMut`: succeeds
    /// exactly when the lock is not held exclusively and a shared slot is
    /// free, and a failure has no side effect.
    pub fn try_read(&mut self) -> (g: Option<CryoMutReadGuard>)
        requires
            old(self).wf(),
        ensures
            final(self).wf(),
            final(self).contents() == old(self).contents(),
            g is Some <==> can_add_shared(old(self).lock_model(), L::max_shared()),
            g is Some ==> final(self).lock_model() == add_shared(old(self).lock_model()),
            g is None ==> final(self).lock_model() == old(self).lock_model(),
    {
        if self.lock.try_lock_shared() {
            Some(CryoMutReadGuard { _token: () })
        } else {
            None
        }
    }

    /// Clone an outstanding read guard: take one more shared slot. This
    /// stands for the guard's own `clone`, which re-enters the shared
    /// acquisition.
    pub fn clone_read(&mut self, _g: &CryoMutReadGuard) -> (g: CryoMutReadGuard)
        requires
            old(self).wf(),
            old(self).lock_model() is Shared,
            can_add_shared(old(self).lock_model(), L::max_shared()),
        ensures
            final(self).wf(),
            final(self).lock_model() == add_shared(old(self).lock_model()),
            final(self).contents() == old(self).contents(),
    {
        self.lock.lock_shared();
        CryoMutReadGuard { _token: () }
    }

    /// Acquire a write (exclusive) lock on a `CryoMut`. Only the unlocked
    /// state is admitted, as in [`Lock::lock_exclusive`].
    pub fn write(&mut self) -> (g: CryoMutWriteGuard)
        requires
            old(self).wf(),
            old(self).lock_model() is Unlocked,
        ensures
            final(self).wf(),
            final(self).lock_model() is Exclusive,
            final(self).contents() == old(self).contents(),
    {
        self.lock.lock_exclusive();
        CryoMutWriteGuard { _token: () }
    }

    /// Attempt to acquire a write (exclusive) lock on a `CryoMut`: succeeds
    /// exactly on an unlocked lock, and a failure has no side effect.
    pub fn try_write(&mut self) -> (g: Option<CryoMutWriteGuard>)
        requires
            old(self).wf(),
        ensures
            final(self).wf(),
            final(self).contents() == old(self).contents(),
            g is Some <==> old(self).lock_model() is Unlocked,
            g is Some ==> final(self).lock_model() is Exclusive,
            g is None ==> final(self).lock_model() == old(self).lock_model(),
    {
        if self.lock.try_lock_exclusive() {
            Some(CryoMutWriteGuard { _token: () })
        } else {
            None
        }
    }

    /// Read the value through an outstanding read guard: the guard's
    /// dereference.
    pub fn deref_read(&self, _g: &CryoMutReadGuard) -> (r: &T)
        requires
            self.lock_model() is Shared,
        ensures
            *r == self.contents(),
    {
        &self.value
    }

    /// Read the value through an outstanding write guard: the guard's
    /// dereference.
    pub fn deref_write(&self, _g: &CryoMutWriteGuard) -> (r: &T)
        requires
            self.lock_model() is Exclusive,
        ensures
            *r == self.contents(),
    {
        &self.value
    }

    /// Write the value through an outstanding write guard: the guard's
    /// mutable dereference.
    pub fn deref_write_mut(&mut self, _g: &CryoMutWriteGuard) -> (r: &mut T)
        requires
            old(self).wf(),
            old(self).lock_model() is Exclusive,
        ensures
            final(self).wf(),
            *r == old(self).contents(),
            final(self).contents() == *final(r),
            final(self).lock_model() == old(self).lock_model(),
    {
        &mut self.value
    }

    /// Replace the value through an outstanding write guard, returning the
    /// prior value.
    pub fn replace(&mut self, _g: &CryoMutWriteGuard, x: T) -> (r: T)
        requires
            old(self).wf(),
            old(self).lock_model() is Exclusive,
        ensures
            final(self).wf(),
            r == old(self).contents(),
            final(self).contents() == x,
            final(self).lock_model() == old(self).lock_model(),
    {
        let mut x = x;
        core::mem::swap(&mut self.value, &mut x);
        x
    }

    /// Give a read guard's shared slot back. This stands for the guard's
    /// destruction.
    pub fn release_read(&mut self, g: CryoMutReadGuard)
        requires
            old(self).wf(),
            old(self).lock_model() is Shared,
        ensures
            final(self).wf(),
            final(self).lock_model() == remove_shared(old(self).lock_model()),
            final(self).contents() == old(self).contents(),
    {
        let CryoMutReadGuard { _token } = g;
        self.lock.unlock_shared();
    }

    /// Give the write guard's exclusive slot back. This stands for the
    /// guard's destruction.
    pub fn release_write(&mut self, g: CryoMutWriteGuard)
        requires
            old(self).wf(),
            old(self).lock_model() is Exclusive,
        ensures
            final(self).wf(),
            final(self).lock_model() is Unlocked,
            final(self).contents() == old(self).contents(),
    {
        let CryoMutWriteGuard { _token } = g;
        self.lock.unlock_exclusive();
    }

    /// Attempt to mutably borrow a `CryoMut` using compile-time lifetime
    /// rules: an exclusive acquisition, released at once, proves that no
    /// guard is outstanding, and direct access to the value is handed back.
    ///
    /// Returns `None`, leaving the cell unchanged, exactly when a guard is
    /// outstanding.
    pub fn try_get_mut(&mut self) -> (r: Option<&mut T>)
        requires
            old(self).wf(),
        ensures
            final(self).wf(),
            r is Some <==> old(self).lock_model() is Unlocked,
            final(self).lock_model() == old(self).lock_model(),
            r matches Some(v) ==> *v == old(self).contents() && final(self).contents() == *final(v),
            r is None ==> final(self).contents() == old(self).contents(),
    {
        if self.lock.try_lock_exclusive() {
            self.lock.unlock_exclusive();
            Some(&mut self.value)
        } else {
            None
        }
    }

    /// Tear the cell down and hand its value back. The destruction of the
    /// cell performs an exclusive acquisition to prove that no guard
    /// remains; only the fully-released state lets that acquisition return,
    /// so only that state is admitted here.
    pub fn into_inner(self) -> (r: T)
        requires
            self.wf(),
            self.lock_model() is Unlocked,
        ensures
            r == self.contents(),
    {
        let CryoMut { value, lock } = self;
        let mut lock = lock;
        lock.lock_exclusive();
        // A write lock ensures there are no other references to the
        // contents; the lock is discarded with the cell.
        value
    }
}

/// Marker type to specify the lock type to use with [`with_cryo`].
pub struct LockTyMarker<L>(pub PhantomData<L>);

impl<L> Default for LockTyMarker<L> {
    fn default() -> (r: Self)
        ensures
            r == (LockTyMarker::<L>(PhantomData)),
    {
        LockTyMarker(PhantomData)
    }
}

/// Construct a [`LockTyMarker`].
pub fn lock_ty<L>() -> (r: LockTyMarker<L>)
    ensures
        r == (LockTyMarker::<L>(PhantomData)),
{
    LockTyMarker(PhantomData)
}

/// The sealing trait behind [`WithCryo`]: only the forms listed here can be
/// wrapped with a cell.
pub trait Sealed {}

impl<'a, T> Sealed for &'a T {}

impl<'a, T, L: Lock> Sealed for (&'a T, LockTyMarker<L>) {}

/// The trait for types that can be wrapped with [`Cryo`].
///
/// The one method constructs a fresh cell over the value, hands it to the
/// given closure, and tears it down when the closure hands it back. The
/// closure must leave the cell with its lock fully released — the teardown
/// step is an exclusive acquisition, and any outstanding guard would keep it
/// from returning.
pub trait WithCryo: Sealed + Sized {
    /// The cell type constructed over this form.
    type Cryo;

    /// What construction establishes: the cell is well-formed, its lock is
    /// unlocked, and it holds this form's value.
    spec fn cryo_init(self, c: Self::Cryo) -> bool;

    /// What the closure must leave behind: a well-formed cell whose lock is
    /// fully released, so that the teardown step can complete.
    spec fn cryo_done(c: Self::Cryo) -> bool;

    /// Call a given function with a constructed [`Cryo`].
    ///
    /// This method is also exposed as a global function [`with_cryo`].
    fn with_cryo<R, F: FnOnce(Self::Cryo) -> (Self::Cryo, R)>(self, f: F) -> (r: R)
        requires
            forall|c: Self::Cryo| #[trigger] self.cryo_init(c) ==> call_requires(f, (c,)),
            forall|c: Self::Cryo, c2: Self::Cryo, r2: R|
                self.cryo_init(c) && #[trigger] call_ensures(f, (c,), (c2, r2)) ==> Self::cryo_done(
                    c2,
                ),
        ensures
            exists|c: Self::Cryo, c2: Self::Cryo|
                self.cryo_init(c) && #[trigger] call_ensures(f, (c,), (c2, r)),
    ;
}

/// Constructs [`Cryo`] with [`LocalLock`] as its lock type.
impl<'a, T> WithCryo for &'a T {
    type Cryo = Cryo<'a, T, LocalLock>;

    open spec fn cryo_init(self, c: Self::Cryo) -> bool {
        c.wf() && c.lock_model() is Unlocked && c.contents() == *self
    }

    open spec fn cryo_done(c: Self::Cryo) -> bool {
        c.wf() && c.lock_model() is Unlocked
    }

    fn with_cryo<R, F: FnOnce(Self::Cryo) -> (Self::Cryo, R)>(self, f: F) -> (r: R) {
        let c = Cryo::<'a, T, LocalLock>::new(self);
        proof {
            assert(self.cryo_init(c));
        }
        let (c2, r) = f(c);
        proof {
            assert(Self::cryo_done(c2));
        }
        c2.teardown();
        r
    }
}

/// Constructs [`Cryo`] with a specified lock type.
impl<'a, T, L: Lock> WithCryo for (&'a T, LockTyMarker<L>) {
    type Cryo = Cryo<'a, T, L>;

    open spec fn cryo_init(self, c: Self::Cryo) -> bool {
        c.wf() && c.lock_model() is Unlocked && c.contents() == *self.0
    }

    open spec fn cryo_done(c: Self::Cryo) -> bool {
        c.wf() && c.lock_model() is Unlocked
    }

    fn with_cryo<R, F: FnOnce(Self::Cryo) -> (Self::Cryo, R)>(self, f: F) -> (r: R) {
        let c = Cryo::<'a, T, L>::new(self.0);
        proof {
            assert(self.cryo_init(c));
        }
        let (c2, r) = f(c);
        proof {
            assert(Self::cryo_done(c2));
        }
        c2.teardown();
        r
    }
}

/// Call a given function with a constructed [`Cryo`].
///
/// This function is a thin wrapper of [`WithCryo::with_cryo`].
pub fn with_cryo<X: WithCryo, R, F: FnOnce(X::Cryo) -> (X::Cryo, R)>(x: X, f: F) -> (r: R)
    requires
        forall|c: X::Cryo| #[trigger] x.cryo_init(c) ==> call_requires(f, (c,)),
        forall|c: X::Cryo, c2: X::Cryo, r2: R|
            x.cryo_init(c) && #[trigger] call_ensures(f, (c,), (c2, r2)) ==> X::cryo_done(c2),
    ensures
        exists|c: X::Cryo, c2: X::Cryo| x.cryo_init(c) && #[trigger] call_ensures(f, (c,), (c2, r)),
{
    x.with_cryo(f)
}

} // verus!
