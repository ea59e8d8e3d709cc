//! The read guard: an acquisition snapshot awaiting validation.

use vstd::prelude::*;

use crate::OptimisticLockCoupling;
use crate::OptimisticLockCouplingErrorType;
use crate::OptimisticLockCouplingResult;
use crate::spec_version;
use crate::sync_result;
use crate::try_lock_result;

verus! {

/// A reader's capability: the state word the reader observed at acquisition.
/// The guard grants nothing by itself — the value is borrowed through the
/// cell, with no synchronization on the value — and it emits no side effect
/// when discarded.  Its one consuming operation is `try_sync`: the caller
/// must either validate or treat what it read as unsafe to commit to.
#[derive(Debug)]
pub struct OptimisticLockCouplingReadGuard {
    version: u64,
}

impl OptimisticLockCouplingReadGuard {
    /// The acquisition snapshot: the full 64-bit state word.
    pub closed spec fn snapshot(&self) -> u64 {
        self.version
    }

    /// Acquires a read guard: classifies the cell exactly as `try_lock`
    /// does and, when the cell is clean, records the snapshot.
    pub fn new<T>(lock: &OptimisticLockCoupling<T>) -> (r: OptimisticLockCouplingResult<Self>)
        ensures
            match r {
                Ok(g) => try_lock_result(lock.poison_flag(), lock.state()) is Ok && g.snapshot()
                    == lock.state(),
                Err(e) => try_lock_result(lock.poison_flag(), lock.state()) == Err::<
                    u64,
                    OptimisticLockCouplingErrorType,
                >(e),
            },
    {
        if lock.is_poisoned() {
            return Err(OptimisticLockCouplingErrorType::Poisoned);
        }
        let version = match lock.try_lock() {
            Ok(v) => v,
            Err(e) => {
                return Err(e);
            },
        };
        Ok(Self { version })
    }

    /// The acquisition snapshot, bit for bit.
    pub fn snapshot_word(&self) -> (r: u64)
        ensures
            r == self.snapshot(),
    {
        self.version
    }

    /// The version field of the acquisition snapshot: the snapshot without
    /// its two flag bits, as a debug formatter shows it.
    pub fn version(&self) -> (r: u64)
        ensures
            r == spec_version(self.snapshot()),
    {
        self.version >> 2u64
    }

    /// Validation, consuming the guard: succeeds exactly when a fresh
    /// `try_lock` returns a snapshot equal to the acquisition snapshot — the
    /// entire word, so a writer that finished in between (version field), a
    /// writer still in progress (lock bit) and an outdate mark (bit 0) each
    /// invalidate the read.
    pub fn try_sync<T>(self, lock: &OptimisticLockCoupling<T>) -> (r: OptimisticLockCouplingResult<
        (),
    >)
        ensures
            r == sync_result(lock.poison_flag(), lock.state(), self.snapshot()),
    {
        match lock.try_lock() {
            Ok(fresh) => {
                if self.version == fresh {
                    Ok(())
                } else {
                    Err(OptimisticLockCouplingErrorType::VersionUpdated)
                }
            },
            Err(e) => Err(e),
        }
    }
}

} // verus!
