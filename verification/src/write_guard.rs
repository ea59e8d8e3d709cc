//! The write guard: the capability minted by a successful acquisition.

use vstd::prelude::*;

use crate::spec_version;

verus! {

/// A writer's capability, created when the acquiring compare-and-swap of
/// `write` succeeds; it records the clean state word the swap replaced.
/// While the guard exists the cell's lock bit is set and the guard is the
/// sole legitimate mutator.  Its drop takes one of two paths through the
/// cell: `release_write` (normal) adds `0b10` to the state word, clearing
/// the lock bit and advancing the version by one, and `poison_write` (the
/// unwinding path) sets the sticky poison flag and leaves the state word as
/// it is.
#[derive(Debug)]
pub struct OptimisticLockCouplingWriteGuard {
    version: u64,
}

impl OptimisticLockCouplingWriteGuard {
    /// The clean state word that the acquiring compare-and-swap replaced.
    pub closed spec fn snapshot(&self) -> u64 {
        self.version
    }

    /// Packages an acquisition snapshot as a guard; `write` calls this after
    /// its compare-and-swap succeeds.
    pub fn new(version: u64) -> (r: Self)
        ensures
            r.snapshot() == version,
    {
        Self { version }
    }

    /// The acquisition snapshot, bit for bit.
    pub fn snapshot_word(&self) -> (r: u64)
        ensures
            r == self.snapshot(),
    {
        self.version
    }

    /// The version field of the acquisition snapshot, as a debug formatter
    /// shows it.  Acquisition leaves the version bits alone, so this is also
    /// the version field of the cell for as long as the guard is held.
    pub fn version(&self) -> (r: u64)
        ensures
            r == spec_version(self.snapshot()),
    {
        self.version >> 2u64
    }
}

} // verus!
