use optimistic_lock_coupling::OptimisticLockCoupling;
use optimistic_lock_coupling::OptimisticLockCouplingErrorType;
use optimistic_lock_coupling::counter_write_rounds;
use optimistic_lock_coupling::is_locked;
use optimistic_lock_coupling::is_outdate;

#[test]
fn read_lock() {
    let lock = OptimisticLockCoupling::new(1);
    let r = lock.read().and_then(|r| {
        println!("{:?}", r);
        assert_eq!(*lock.data(), 1);
        r.try_sync(&lock)
    });
    assert_eq!(r, Ok(()));
}

#[test]
fn write_lock() {
    let mut lock = OptimisticLockCoupling::new(1);
    let w = lock.write().unwrap();
    let v: i32 = *lock.data();
    lock.set_data(&w, v + 1);
    lock.release_write(w);
    assert_eq!(lock.state_word(), 0b100);
    let _r = lock.read().and_then(|r| {
        println!("{:?}", r);
        assert_eq!(*lock.data(), 2);
        r.try_sync(&lock)
    });
}

#[test]
#[should_panic]
fn read_while_write() {
    let mut lock = OptimisticLockCoupling::new(1);
    let _w = lock.write().unwrap();
    // will fail because the lock bit blocks the reader
    let _r = lock.read().unwrap();
}

#[test]
fn lots_of_rounds() {
    // three writers' worth of 10,000 counter rounds each, as the sequence of
    // atomic actions an interleaving of three threads reduces to
    let mut lock = OptimisticLockCoupling::from(0u64);
    counter_write_rounds(&mut lock, 10000);
    counter_write_rounds(&mut lock, 10000);
    counter_write_rounds(&mut lock, 10000);
    let read = lock.read().unwrap();
    assert_eq!(*lock.data(), 30000);
    read.try_sync(&lock).unwrap();
}

#[test]
fn counter_rounds_track_value_and_version() {
    let mut lock = OptimisticLockCoupling::new(10u64);
    counter_write_rounds(&mut lock, 5);
    assert_eq!(*lock.data(), 15);
    assert_eq!(lock.state_word() >> 2, 5);
    assert!(!is_locked(lock.state_word()));
    assert!(!is_outdate(lock.state_word()));
}

#[test]
fn state_word_helpers() {
    assert!(!is_locked(0b00));
    assert!(!is_outdate(0b00));
    assert!(is_locked(0b10));
    assert!(!is_outdate(0b10));
    assert!(!is_locked(0b01));
    assert!(is_outdate(0b01));
    assert!(is_locked(0b111));
    assert!(is_outdate(0b111));
}

#[test]
fn error_classification() {
    assert!(OptimisticLockCouplingErrorType::Poisoned.is_permanent());
    assert!(OptimisticLockCouplingErrorType::Outdated.is_permanent());
    assert!(!OptimisticLockCouplingErrorType::Blocked.is_permanent());
    assert!(!OptimisticLockCouplingErrorType::VersionUpdated.is_permanent());
}

#[test]
fn from_builds_fresh_cell() {
    let lock = OptimisticLockCoupling::from(7i64);
    assert_eq!(lock.state_word(), 0);
    assert!(!lock.is_poisoned());
    assert_eq!(*lock.data(), 7);
}

#[test]
fn default_builds_fresh_cell() {
    let lock: OptimisticLockCoupling<i32> = Default::default();
    assert_eq!(lock.state_word(), 0);
    assert!(!lock.is_poisoned());
    assert_eq!(*lock.data(), 0);
}

#[test]
fn guard_version_fields() {
    let mut lock = OptimisticLockCoupling::new(1u8);
    let g = lock.read().unwrap();
    assert_eq!(g.version(), 0);
    assert_eq!(g.snapshot_word(), 0);
    g.try_sync(&lock).unwrap();
    let w = lock.write().unwrap();
    assert_eq!(w.version(), 0);
    assert_eq!(w.snapshot_word(), 0);
    lock.release_write(w);
    let g2 = lock.read().unwrap();
    assert_eq!(g2.version(), 1);
    assert_eq!(g2.snapshot_word(), 0b100);
}
