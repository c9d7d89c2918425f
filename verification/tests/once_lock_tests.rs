use std::cell::Cell;
use std::rc::Rc;

use spin_lock::once_lock::OnceMutex;

#[test]
fn once_mutex_initializer_runs_exactly_once_across_callers() {
    let counter: Rc<Cell<u32>> = Rc::new(Cell::new(0));
    let mut cell: OnceMutex<u32> = OnceMutex::new();
    let mut observed: Vec<u32> = Vec::new();
    for _round in 0u32..8u32 {
        let counter = counter.clone();
        let guard = cell.lock_or_init(move || {
            counter.set(counter.get() + 1);
            counter.get()
        });
        observed.push(*guard.get());
        cell.unlock(guard);
    }
    assert_eq!(counter.get(), 1);
    for value in observed {
        assert_eq!(value, 1);
    }
}

#[test]
fn once_mutex_later_locks_skip_the_initializer() {
    let counter: Rc<Cell<u32>> = Rc::new(Cell::new(0));
    let mut cell: OnceMutex<&'static str> = OnceMutex::new();
    for _round in 0u32..5u32 {
        let counter = counter.clone();
        let guard = cell.lock_or_init(move || {
            counter.set(counter.get() + 1);
            "first"
        });
        assert_eq!(*guard.get(), "first");
        cell.unlock(guard);
    }
    assert_eq!(counter.get(), 1);
}

#[test]
fn once_mutex_lock_initializes_with_the_default_value() {
    let mut cell: OnceMutex<u64> = OnceMutex::new();
    let guard = cell.lock();
    assert_eq!(*guard.get(), 0);
    cell.unlock(guard);
}

#[test]
fn once_mutex_lock_reuses_a_value_stored_by_lock_or_init() {
    let mut cell: OnceMutex<u64> = OnceMutex::new();
    let guard = cell.lock_or_init(|| 7);
    cell.unlock(guard);
    let guard = cell.lock();
    assert_eq!(*guard.get(), 7);
    cell.unlock(guard);
}

#[test]
fn once_mutex_guard_writes_persist_across_rounds() {
    let mut cell: OnceMutex<u32> = OnceMutex::new();
    let mut guard = cell.lock_or_init(|| 1);
    guard.set(10);
    cell.unlock(guard);
    let mut guard = cell.lock_or_init(|| 2);
    assert_eq!(*guard.get(), 10);
    *guard.borrow_mut() += 5;
    cell.unlock(guard);
    let guard = cell.lock_or_init(|| 3);
    assert_eq!(*guard.get(), 15);
    cell.unlock(guard);
}

#[test]
fn once_mutex_default_starts_uninitialized() {
    let mut cell: OnceMutex<u8> = OnceMutex::default();
    let guard = cell.lock_or_init(|| 9);
    assert_eq!(*guard.get(), 9);
    cell.unlock(guard);
}
