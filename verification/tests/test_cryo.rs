use cryo::{with_cryo, Cryo, LocalLock};

#[test]
fn test_cryo_new() {
    with_cryo(&42, |c: Cryo<'_, i32, LocalLock>| (c, ()));
}

#[test]
fn borrow() {
    with_cryo(&42, |mut cryo: Cryo<'_, i32, LocalLock>| {
        let guard = cryo.borrow();
        assert_eq!(*cryo.get(), 42);
        cryo.release(guard);
        (cryo, ())
    });
}

#[test]
fn borrow2() {
    with_cryo(&42, |mut cryo: Cryo<'_, i32, LocalLock>| {
        let b1 = cryo.borrow();
        let b2 = cryo.borrow();
        assert_eq!(*cryo.get(), 42);
        cryo.release(b1);
        cryo.release(b2);
        (cryo, ())
    });
}

#[test]
fn get() {
    with_cryo(&42, |cryo: Cryo<'_, i32, LocalLock>| {
        assert_eq!(*cryo.get(), 42);
        (cryo, ())
    });
}

#[test]
fn with_cryo_returns_closure_result() {
    let doubled = with_cryo(&21, |cryo: Cryo<'_, i32, LocalLock>| {
        let seen = *cryo.get();
        (cryo, seen * 2)
    });
    assert_eq!(doubled, 42);
}

#[test]
fn borrow_clone() {
    let value: i32 = 7;
    let mut cryo = Cryo::<'_, i32, LocalLock>::new(&value);
    let b1 = cryo.borrow();
    let b2 = cryo.clone_borrow(&b1);
    assert_eq!(*cryo.get(), 7);
    cryo.release(b1);
    cryo.release(b2);
    cryo.teardown();
}
