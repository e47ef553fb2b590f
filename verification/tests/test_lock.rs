use cryo::{
    classify_shared_acquire, lock_ty, shared_park_exchange, unlock_exclusive_wakes,
    unlock_shared_wakes, with_cryo, AtomicLock, Cryo, LocalLock, Lock, LockTyMarker,
    SharedAcquireOutcome, SyncLock, EXCLUSIVE_FLAG, PARKED_FLAG,
};
use cryo::raw_rwlock::{RawRwLock, StdRawRwLock};

fn shared_pairs_return_to_zero<L: Lock>() {
    // A sequence of shared acquire/release pairs leaves the counter at 0:
    // afterwards an exclusive acquisition succeeds, which it does only on an
    // unlocked counter.
    let mut lock: L = Lock::new();
    assert!(lock.try_lock_shared());
    assert!(lock.try_lock_shared());
    assert!(lock.try_lock_shared());
    lock.unlock_shared();
    assert!(lock.try_lock_shared());
    lock.unlock_shared();
    lock.unlock_shared();
    lock.unlock_shared();
    assert!(lock.try_lock_exclusive());
    lock.unlock_exclusive();
}

#[test]
fn local_shared_pairs_return_to_zero() {
    shared_pairs_return_to_zero::<LocalLock>();
}

#[test]
fn atomic_shared_pairs_return_to_zero() {
    shared_pairs_return_to_zero::<AtomicLock>();
}

#[test]
fn sync_shared_pairs_return_to_zero() {
    shared_pairs_return_to_zero::<SyncLock>();
}

fn exclusive_excludes_all<L: Lock>() {
    // tryLockExclusive succeeds exactly on a counter of 0, and while the
    // lock is held exclusively every try fails with no side effect.
    let mut lock: L = Lock::new();
    assert!(lock.try_lock_exclusive());
    assert!(!lock.try_lock_exclusive());
    assert!(!lock.try_lock_shared());
    assert!(!lock.try_lock_shared());
    lock.unlock_exclusive();
    assert!(lock.try_lock_exclusive());
    lock.unlock_exclusive();
}

#[test]
fn local_exclusive_excludes_all() {
    exclusive_excludes_all::<LocalLock>();
}

#[test]
fn atomic_exclusive_excludes_all() {
    exclusive_excludes_all::<AtomicLock>();
}

#[test]
fn sync_exclusive_excludes_all() {
    exclusive_excludes_all::<SyncLock>();
}

#[test]
fn shared_blocks_exclusive() {
    let mut lock: LocalLock = Lock::new();
    assert!(lock.try_lock_shared());
    assert!(!lock.try_lock_exclusive());
    lock.unlock_shared();
    assert!(lock.try_lock_exclusive());
    lock.unlock_exclusive();
}

#[test]
fn blocking_lock_shared_fast_path() {
    let mut lock: SyncLock = Lock::new();
    lock.lock_shared();
    lock.lock_shared();
    lock.unlock_shared();
    lock.unlock_shared();
    lock.lock_exclusive();
    lock.unlock_exclusive();
}

#[test]
fn std_raw_rwlock_transitions() {
    let mut lock: StdRawRwLock = RawRwLock::new();
    assert!(lock.try_lock_shared());
    assert!(!lock.try_lock_exclusive());
    lock.unlock_shared();
    assert!(lock.try_lock_exclusive());
    assert!(!lock.try_lock_shared());
    lock.unlock_exclusive();
}

#[test]
fn classify_acquired_on_low_counts() {
    assert_eq!(classify_shared_acquire(0), SharedAcquireOutcome::Acquired);
    assert_eq!(classify_shared_acquire(1), SharedAcquireOutcome::Acquired);
    assert_eq!(
        classify_shared_acquire(EXCLUSIVE_FLAG - 3),
        SharedAcquireOutcome::Acquired
    );
}

#[test]
fn classify_overflow_at_bound() {
    assert_eq!(
        classify_shared_acquire(EXCLUSIVE_FLAG - 2),
        SharedAcquireOutcome::OverflowImminent
    );
}

#[test]
fn classify_contended_when_exclusive() {
    assert_eq!(
        classify_shared_acquire(EXCLUSIVE_FLAG),
        SharedAcquireOutcome::Contended
    );
}

#[test]
fn wake_decisions() {
    // A shared release wakes the parked creator exactly when it was the
    // last shared holder under the parked bit.
    assert!(unlock_shared_wakes(PARKED_FLAG + 1));
    assert!(!unlock_shared_wakes(1));
    assert!(!unlock_shared_wakes(PARKED_FLAG + 2));
    assert!(!unlock_shared_wakes(2));

    // An exclusive release wakes the parked creator exactly on the parked
    // exclusive encoding.
    assert!(unlock_exclusive_wakes(PARKED_FLAG + EXCLUSIVE_FLAG));
    assert!(!unlock_exclusive_wakes(EXCLUSIVE_FLAG));
    assert!(!unlock_exclusive_wakes(EXCLUSIVE_FLAG + 1));
}

#[test]
fn park_exchange_words() {
    let (from, to) = shared_park_exchange();
    assert_eq!(from, EXCLUSIVE_FLAG + 1);
    assert_eq!(to, PARKED_FLAG + EXCLUSIVE_FLAG);
    assert_eq!(PARKED_FLAG, usize::MAX / 2 + 1);
    assert_eq!(EXCLUSIVE_FLAG, PARKED_FLAG / 2);
}

#[test]
fn with_cryo_chosen_lock() {
    let r = with_cryo((&42, lock_ty::<SyncLock>()), |mut cryo: Cryo<'_, i32, SyncLock>| {
        let guard = cryo.borrow();
        let seen = *cryo.get();
        cryo.release(guard);
        (cryo, seen)
    });
    assert_eq!(r, 42);
}

#[test]
fn lock_ty_marker_default() {
    let _marker: LockTyMarker<LocalLock> = LockTyMarker::default();
    let _marker2: LockTyMarker<SyncLock> = lock_ty::<SyncLock>();
}
