use optimistic_lock_coupling::OptimisticLockCoupling;
use optimistic_lock_coupling::OptimisticLockCouplingErrorType::Blocked;
use optimistic_lock_coupling::OptimisticLockCouplingErrorType::Outdated;
use optimistic_lock_coupling::OptimisticLockCouplingErrorType::Poisoned;
use optimistic_lock_coupling::OptimisticLockCouplingErrorType::VersionUpdated;
use optimistic_lock_coupling::is_locked;
use optimistic_lock_coupling::is_outdate;

#[test]
fn single_threaded_read_txn() {
    // a transaction on a fresh cell returns the value and leaves the state
    // word untouched
    let lock = OptimisticLockCoupling::new(1i32);
    let before: u64 = lock.state_word();
    let r = lock.read_txn(|g: &i32| Ok(*g));
    assert_eq!(r, Ok(1));
    assert_eq!(lock.state_word(), before);
}

#[test]
fn single_threaded_write() {
    // one full write cycle: value 1 -> 2, version field 0 -> 1, lock bit clear
    let mut lock = OptimisticLockCoupling::new(1i32);
    let w = lock.write().unwrap();
    lock.set_data(&w, 2);
    lock.release_write(w);
    let g = lock.read().unwrap();
    assert_eq!(*lock.data(), 2);
    g.try_sync(&lock).unwrap();
    assert_eq!(lock.state_word() >> 2, 1);
    assert!(!is_locked(lock.state_word()));
}

#[test]
fn reader_aborted_by_concurrent_writer() {
    // the reader's snapshot goes stale when a writer completes in between
    let mut lock = OptimisticLockCoupling::new(1i32);
    let g = lock.read().unwrap();
    let w = lock.write().unwrap();
    lock.set_data(&w, 2);
    lock.release_write(w);
    assert_eq!(g.try_sync(&lock), Err(VersionUpdated));
}

#[test]
fn read_blocked_while_writer_holds_guard() {
    let mut lock = OptimisticLockCoupling::new(1u32);
    let w = lock.write().unwrap();
    assert_eq!(lock.read().unwrap_err(), Blocked);
    assert_eq!(lock.write().unwrap_err(), Blocked);
    lock.release_write(w);
    assert!(lock.read().is_ok());
}

#[test]
fn writer_loses_cas_race() {
    // two writers observe the same clean snapshot; the first completes a
    // full cycle, so the second's compare-and-swap fails
    let mut lock = OptimisticLockCoupling::new(1u32);
    let stale: u64 = lock.try_lock().unwrap();
    let w = lock.acquire_write(stale).unwrap();
    lock.set_data(&w, 2);
    lock.release_write(w);
    assert_eq!(lock.acquire_write(stale).unwrap_err(), VersionUpdated);
}

#[test]
fn outdated_propagation() {
    // an in-flight reader is aborted by the outdate mark, and every later
    // reader is rejected outright
    let mut lock = OptimisticLockCoupling::new(1i32);
    let g = lock.read().unwrap();
    lock.make_outdate();
    assert_eq!(g.try_sync(&lock), Err(Outdated));
    assert_eq!(lock.read().unwrap_err(), Outdated);
    assert_eq!(lock.write().unwrap_err(), Outdated);
    assert_eq!(lock.read_txn(|g: &i32| Ok(*g)), Err(Outdated));
}

#[test]
fn try_sync_outdated_beats_version_change() {
    // once the cell is outdated, validation reports Outdated regardless of
    // whether the version advanced as well
    let mut lock = OptimisticLockCoupling::new(1i32);
    let g = lock.read().unwrap();
    let w = lock.write().unwrap();
    lock.set_data(&w, 2);
    lock.release_write(w);
    lock.make_outdate();
    assert_eq!(g.try_sync(&lock), Err(Outdated));
}

#[test]
fn poisoning() {
    // a writer that unwinds poisons the cell: everything afterwards fails
    // with Poisoned and the value is presumed corrupt
    let mut lock = OptimisticLockCoupling::new(1i32);
    let w = lock.write().unwrap();
    lock.set_data(&w, -1);
    lock.poison_write(w);
    assert!(lock.is_poisoned());
    assert_eq!(lock.read().unwrap_err(), Poisoned);
    assert_eq!(lock.write().unwrap_err(), Poisoned);
    assert_eq!(lock.read_txn(|g: &i32| Ok(*g)), Err(Poisoned));
    // the state word kept the lock bit: the guard was never released
    assert!(is_locked(lock.state_word()));
}

#[test]
fn read_sync_round_trip_is_identity() {
    // new(x); read(); try_sync() leaves the cell bit-identical to its
    // initial state
    let lock = OptimisticLockCoupling::new(9u16);
    let g = lock.read().unwrap();
    assert_eq!(*lock.data(), 9);
    g.try_sync(&lock).unwrap();
    assert_eq!(lock.state_word(), 0);
    assert!(!lock.is_poisoned());
    assert_eq!(*lock.data(), 9);
}

#[test]
fn make_outdate_is_idempotent() {
    let mut once = OptimisticLockCoupling::new(3u8);
    once.make_outdate();
    let after_one: u64 = once.state_word();
    once.make_outdate();
    assert_eq!(once.state_word(), after_one);
    assert!(is_outdate(after_one));
}

#[test]
fn outdate_while_locked_keeps_both_bits() {
    // the outdate mark may race a writer: the resulting word carries both
    // bits, and the writer's release still advances the version while the
    // outdate bit stays
    let mut lock = OptimisticLockCoupling::new(5u8);
    let w = lock.write().unwrap();
    lock.make_outdate();
    assert!(is_locked(lock.state_word()));
    assert!(is_outdate(lock.state_word()));
    lock.release_write(w);
    assert!(!is_locked(lock.state_word()));
    assert!(is_outdate(lock.state_word()));
    assert_eq!(lock.state_word() >> 2, 1);
    assert_eq!(lock.read().unwrap_err(), Outdated);
}

#[test]
fn read_txn_surfaces_permanent_logic_error() {
    let lock = OptimisticLockCoupling::new(4i32);
    let r: Result<i32, _> = lock.read_txn(|_g: &i32| Err(Outdated));
    assert_eq!(r, Err(Outdated));
}

#[test]
fn set_data_leaves_state_word_alone() {
    let mut lock = OptimisticLockCoupling::new(1u64);
    let w = lock.write().unwrap();
    let during: u64 = lock.state_word();
    lock.set_data(&w, 2);
    lock.set_data(&w, 3);
    assert_eq!(lock.state_word(), during);
    lock.release_write(w);
    assert_eq!(*lock.data(), 3);
}
