use cryo::{CryoMut, LocalLock, SyncLock};

#[test]
fn test_cryo_mut_new() {
    let cryo_mut = CryoMut::<i32, LocalLock>::new(42);
    assert_eq!(cryo_mut.into_inner(), 42);
}

#[test]
fn read() {
    let mut cryo_mut = CryoMut::<i32, LocalLock>::new(42);
    let guard = cryo_mut.read();
    assert_eq!(*cryo_mut.deref_read(&guard), 42);
    cryo_mut.release_read(guard);
    assert_eq!(cryo_mut.into_inner(), 42);
}

#[test]
fn read2() {
    let mut cryo_mut = CryoMut::<i32, LocalLock>::new(42);
    let b1 = cryo_mut.read();
    let b2 = cryo_mut.read();
    assert_eq!(*cryo_mut.deref_read(&b1), 42);
    cryo_mut.release_read(b1);
    cryo_mut.release_read(b2);
    assert_eq!(cryo_mut.into_inner(), 42);
}

#[test]
fn write() {
    let mut cryo_mut = CryoMut::<i32, LocalLock>::new(42);
    let guard = cryo_mut.write();
    assert_eq!(*cryo_mut.deref_write(&guard), 42);
    cryo_mut.release_write(guard);
    assert_eq!(cryo_mut.into_inner(), 42);
}

#[test]
fn write_mutates() {
    let mut cryo_mut = CryoMut::<i32, SyncLock>::new(42);
    let guard = cryo_mut.write();
    *cryo_mut.deref_write_mut(&guard) = 56;
    assert_eq!(*cryo_mut.deref_write(&guard), 56);
    cryo_mut.release_write(guard);
    assert_eq!(cryo_mut.into_inner(), 56);
}

#[test]
fn read_clone() {
    let mut cryo_mut = CryoMut::<i32, SyncLock>::new(42);
    let b1 = cryo_mut.read();
    let b2 = cryo_mut.clone_read(&b1);
    assert_eq!(*cryo_mut.deref_read(&b2), 42);
    cryo_mut.release_read(b1);
    cryo_mut.release_read(b2);
    assert_eq!(cryo_mut.into_inner(), 42);
}

#[test]
fn try_get_mut() {
    let mut cryo_mut = CryoMut::<i32, SyncLock>::new(42);
    assert_eq!(cryo_mut.try_get_mut(), Some(&mut 42));
}

#[test]
fn try_get_mut_fail() {
    let mut cryo_mut = CryoMut::<i32, SyncLock>::new(42);
    let b = cryo_mut.read();
    assert_eq!(cryo_mut.try_get_mut(), None);
    cryo_mut.release_read(b);
}

#[test]
fn try_get_mut_after_release() {
    let mut cryo_mut = CryoMut::<i32, SyncLock>::new(42);
    let b = cryo_mut.read();
    assert_eq!(cryo_mut.try_get_mut(), None);
    cryo_mut.release_read(b);
    assert_eq!(cryo_mut.try_get_mut(), Some(&mut 42));
}

#[test]
fn try_read_while_written() {
    let mut cryo_mut = CryoMut::<i32, SyncLock>::new(42);
    let w = cryo_mut.write();
    assert!(cryo_mut.try_read().is_none());
    assert!(cryo_mut.try_write().is_none());
    cryo_mut.release_write(w);
    let r = cryo_mut.try_read();
    assert!(r.is_some());
    cryo_mut.release_read(r.unwrap());
}

#[test]
fn exclusive_cycles_serialize() {
    // Two exclusive acquire/mutate/release cycles on the blocking backend,
    // then a third: each replace returns the prior value, and the values
    // serialize as 42 -> 56 -> 72 -> 100.
    let mut cryo_mut = CryoMut::<i32, SyncLock>::new(42);

    let g1 = cryo_mut.write();
    assert_eq!(cryo_mut.replace(&g1, 56), 42);
    cryo_mut.release_write(g1);

    let g2 = cryo_mut.write();
    assert_eq!(cryo_mut.replace(&g2, 72), 56);
    cryo_mut.release_write(g2);

    let g3 = cryo_mut.write();
    assert_eq!(cryo_mut.replace(&g3, 100), 72);
    cryo_mut.release_write(g3);

    assert_eq!(cryo_mut.into_inner(), 100);
}
