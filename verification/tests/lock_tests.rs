use spin_lock::raw;
use spin_lock::SpinLock;

#[test]
fn it_works() {}

#[test]
fn raw_lock_starts_free_and_try_lock_wins() {
    let mut lock = raw::SpinLock::new();
    assert!(lock.try_lock());
}

#[test]
fn raw_lock_second_attempt_loses_until_release() {
    let mut lock = raw::SpinLock::new();
    lock.lock();
    assert!(!lock.try_lock());
    assert!(!lock.try_lock());
    lock.unlock();
    assert!(lock.try_lock());
}

#[test]
fn raw_lock_default_is_free() {
    let mut lock = raw::SpinLock::default();
    assert!(lock.try_lock());
}

#[test]
fn mutual_exclusion_second_acquire_fails_while_guard_is_live() {
    let mut cell = SpinLock::new(5u32);
    let guard = cell.lock();
    assert!(cell.try_lock().is_none());
    cell.unlock(guard);
    let second = cell.try_lock();
    assert!(second.is_some());
    cell.unlock(second.unwrap());
}

#[test]
fn lock_returns_the_stored_value() {
    let mut cell = SpinLock::new(String::from("payload"));
    let guard = cell.lock();
    assert_eq!(guard.get(), "payload");
    cell.unlock(guard);
}

#[test]
fn write_before_release_is_seen_after_next_acquire() {
    let mut cell = SpinLock::new(0u64);
    let mut writer = cell.lock();
    writer.set(42);
    cell.unlock(writer);
    let reader = cell.lock();
    assert_eq!(*reader.get(), 42);
    cell.unlock(reader);
}

#[test]
fn guard_borrow_mut_updates_the_payload() {
    let mut cell = SpinLock::new(1u32);
    let mut guard = cell.lock();
    *guard.borrow_mut() += 1;
    cell.unlock(guard);
    assert_eq!(cell.into_inner(), 2);
}

#[test]
fn into_inner_returns_the_stored_value() {
    let cell = SpinLock::new(9i64);
    assert_eq!(cell.into_inner(), 9);
}

#[test]
fn guard_into_inner_keeps_the_cell_locked() {
    let mut cell = SpinLock::new(3u8);
    let guard = cell.lock();
    let value: u8 = guard.into_inner();
    assert_eq!(value, 3);
    assert!(cell.try_lock().is_none());
}
