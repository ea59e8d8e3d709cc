//! An optimistic lock-coupling primitive.
//!
//! A cell owns a value together with a single 64-bit state word laid out as
//! `(version, write-lock bit, outdate bit)` and a sticky poison flag.  Readers
//! take a snapshot of the state word, use the value, and validate afterwards
//! by comparing a fresh snapshot against the one taken at acquisition; writers
//! acquire the lock bit by a compare-and-swap and release it by adding `0b10`,
//! which simultaneously clears the lock bit and advances the version by one.
//!
//! Every transition of the state word and the exact classification of each
//! failure (`Poisoned`, `Outdated`, `Blocked`, `VersionUpdated`) is stated in
//! the contracts below and machine-checked.  The cell is modelled as a state
//! machine whose operations are its atomic actions: an interleaving of
//! threads is a sequence of such actions, so the contracts cover every
//! interleaving of acquisitions, releases, outdate marks and validations.
//! What cannot be observed from inside the verified code — that the host is
//! currently unwinding — is taken as an explicit operation (`poison_write`),
//! the path a write guard's drop takes on an unwinding thread.

use vstd::prelude::*;
use vstd::std_specs::convert::FromSpec;

mod laws;
mod read_guard;
mod write_guard;

pub use laws::counter_write_rounds;
pub use laws::lemma_clean_read_syncs;
pub use laws::lemma_locked_blocks;
pub use laws::lemma_make_outdate_idempotent;
pub use laws::lemma_outdated_rejects;
pub use laws::lemma_poisoned_rejects;
pub use laws::lemma_sync_outdated;
pub use laws::lemma_sync_validates;
pub use laws::lemma_write_cycle;
pub use read_guard::OptimisticLockCouplingReadGuard;
pub use write_guard::OptimisticLockCouplingWriteGuard;

verus! {

/// The four failure kinds.  `Poisoned` and `Outdated` are permanent: the cell
/// will never again accept a reader or writer.  `Blocked` and
/// `VersionUpdated` are transient: the caller may retry.
#[derive(Debug, Clone, Copy, PartialEq, Eq, Structural)]
pub enum OptimisticLockCouplingErrorType {
    /// A writer's thread unwound without releasing the lock.
    Poisoned,
    /// The cell was marked outdated by its container.
    Outdated,
    /// A writer currently holds the lock bit.
    Blocked,
    /// The state word no longer matches the snapshot it was compared against.
    VersionUpdated,
}

/// Shorthand for results whose error is the cell's failure kind.
pub type OptimisticLockCouplingResult<T> = Result<T, OptimisticLockCouplingErrorType>;

/// Whether a failure is permanent: a permanent failure surfaces to the
/// caller, a transient one may be retried.
pub open spec fn spec_is_permanent(e: OptimisticLockCouplingErrorType) -> bool {
    e is Poisoned || e is Outdated
}

/// Whether the state word has the write-lock bit (bit 1) set.
pub open spec fn spec_is_locked(version: u64) -> bool {
    version & 0b10 != 0
}

/// Whether the state word has the outdate bit (bit 0) set.
pub open spec fn spec_is_outdate(version: u64) -> bool {
    version & 0b1 != 0
}

/// The version field of a state word: the word without its two flag bits.
pub open spec fn spec_version(word: u64) -> u64 {
    word >> 2u64
}

/// A state word with the outdate bit set; the other bits are untouched.
pub open spec fn outdate_word(word: u64) -> u64 {
    word | 0b1
}

/// Decides what `try_lock` returns for a poison flag and a state word:
/// poison is checked first, then the outdate bit, then the lock bit; a clean
/// word is returned as the snapshot.
pub open spec fn try_lock_result(poisoned: bool, word: u64) -> Result<
    u64,
    OptimisticLockCouplingErrorType,
> {
    if poisoned {
        Err(OptimisticLockCouplingErrorType::Poisoned)
    } else if spec_is_outdate(word) {
        Err(OptimisticLockCouplingErrorType::Outdated)
    } else if spec_is_locked(word) {
        Err(OptimisticLockCouplingErrorType::Blocked)
    } else {
        Ok(word)
    }
}

/// Decides what a reader's validation returns: success exactly when a fresh
/// `try_lock` yields a snapshot equal to the acquisition snapshot.
pub open spec fn sync_result(poisoned: bool, word: u64, snapshot: u64) -> Result<
    (),
    OptimisticLockCouplingErrorType,
> {
    match try_lock_result(poisoned, word) {
        Ok(fresh) => if fresh == snapshot {
            Ok(())
        } else {
            Err(OptimisticLockCouplingErrorType::VersionUpdated)
        },
        Err(e) => Err(e),
    }
}

#[verifier::when_used_as_spec(spec_is_locked)]
pub fn is_locked(version: u64) -> (r: bool)
    ensures
        r == spec_is_locked(version),
{
    version & 0b10 != 0
}

#[verifier::when_used_as_spec(spec_is_outdate)]
pub fn is_outdate(version: u64) -> (r: bool)
    ensures
        r == spec_is_outdate(version),
{
    version & 0b1 != 0
}

impl OptimisticLockCouplingErrorType {
    /// Whether this failure is permanent (`Poisoned` or `Outdated`).
    pub fn is_permanent(&self) -> (r: bool)
        ensures
            r == spec_is_permanent(*self),
    {
        match self {
            OptimisticLockCouplingErrorType::Poisoned => true,
            OptimisticLockCouplingErrorType::Outdated => true,
            OptimisticLockCouplingErrorType::Blocked => false,
            OptimisticLockCouplingErrorType::VersionUpdated => false,
        }
    }
}

/// The lock cell: a value guarded by a state word and a poison flag.
pub struct OptimisticLockCoupling<T> {
    /// Version in bits 2..64, write-lock bit at bit 1, outdate bit at bit 0.
    version_lock_outdate: u64,
    /// Set when a writer's thread unwound while holding the lock; sticky.
    poisoned: bool,
    /// The guarded value.
    data: T,
}

impl<T> OptimisticLockCoupling<T> {
    /// The current state word.
    pub closed spec fn state(&self) -> u64 {
        self.version_lock_outdate
    }

    /// The current poison flag.
    pub closed spec fn poison_flag(&self) -> bool {
        self.poisoned
    }

    /// The guarded value.
    pub closed spec fn value(&self) -> T {
        self.data
    }

    /// Builds a cell at version 0: not locked, not outdated, not poisoned.
    pub fn new(t: T) -> (r: Self)
        ensures
            r.state() == 0,
            !spec_is_locked(r.state()),
            !spec_is_outdate(r.state()),
            spec_version(r.state()) == 0,
            !r.poison_flag(),
            r.value() == t,
    {
        proof {
            assert(!spec_is_locked(0) && !spec_is_outdate(0) && spec_version(0) == 0)
                by (bit_vector);
        }
        Self { version_lock_outdate: 0, poisoned: false, data: t }
    }

    /// The state word, as a reader's `try_lock` observes it.
    pub fn state_word(&self) -> (r: u64)
        ensures
            r == self.state(),
    {
        self.version_lock_outdate
    }

    /// Whether a writer's thread unwound while holding the lock.
    pub fn is_poisoned(&self) -> (r: bool)
        ensures
            r == self.poison_flag(),
    {
        self.poisoned
    }

    /// Borrows the guarded value.  The borrow itself carries no guarantee of
    /// consistency: a reader must validate its snapshot afterwards to learn
    /// whether what it saw was meaningful.
    pub fn data(&self) -> (r: &T)
        ensures
            *r == self.value(),
    {
        &self.data
    }

    /// Observes the cell and classifies it: the poison flag wins, then the
    /// outdate bit, then the lock bit; a clean state word is returned as the
    /// acquisition snapshot.
    pub fn try_lock(&self) -> (r: OptimisticLockCouplingResult<u64>)
        ensures
            r == try_lock_result(self.poison_flag(), self.state()),
    {
        if self.is_poisoned() {
            return Err(OptimisticLockCouplingErrorType::Poisoned);
        }
        let version = self.version_lock_outdate;
        if is_outdate(version) {
            return Err(OptimisticLockCouplingErrorType::Outdated);
        }
        if is_locked(version) {
            return Err(OptimisticLockCouplingErrorType::Blocked);
        }
        Ok(version)
    }

    /// Sets the outdate bit and touches nothing else.  Idempotent; does not
    /// clear the lock bit and does not change the value or the poison flag.
    pub fn make_outdate(&mut self)
        ensures
            final(self).state() == outdate_word(old(self).state()),
            spec_is_outdate(final(self).state()),
            spec_is_locked(final(self).state()) == spec_is_locked(old(self).state()),
            spec_version(final(self).state()) == spec_version(old(self).state()),
            final(self).poison_flag() == old(self).poison_flag(),
            final(self).value() == old(self).value(),
    {
        proof {
            lemma_outdate_bits(self.version_lock_outdate);
        }
        self.version_lock_outdate = self.version_lock_outdate | 0b1;
    }

    /// Acquires a read guard; equivalent to `OptimisticLockCouplingReadGuard::new`.
    /// Succeeds exactly when the cell is clean — not poisoned, not outdated,
    /// not locked — and then hands back the acquisition snapshot.  The call
    /// takes the cell by shared reference: it performs no read-modify-write
    /// and concurrent readers obtain identical snapshots.
    pub fn read(&self) -> (r: OptimisticLockCouplingResult<OptimisticLockCouplingReadGuard>)
        ensures
            match r {
                Ok(g) => try_lock_result(self.poison_flag(), self.state()) is Ok && g.snapshot()
                    == self.state(),
                Err(e) => try_lock_result(self.poison_flag(), self.state()) == Err::<
                    u64,
                    OptimisticLockCouplingErrorType,
                >(e),
            },
    {
        OptimisticLockCouplingReadGuard::new(self)
    }

    /// The acquiring compare-and-swap of the write path: exchanges the state
    /// word from `snapshot` to `snapshot + 0b10` — setting the lock bit,
    /// leaving the version field as it is — exactly when the word still
    /// equals `snapshot`.  Any transition that interposed between the
    /// observation and this swap makes the swap fail with `VersionUpdated`
    /// and leaves the cell untouched: that is how the loser of a race
    /// between two writers fails.  `snapshot` must be a clean word obtained
    /// from `try_lock`.
    pub fn acquire_write(&mut self, snapshot: u64) -> (r: OptimisticLockCouplingResult<
        OptimisticLockCouplingWriteGuard,
    >)
        requires
            !spec_is_locked(snapshot),
            !spec_is_outdate(snapshot),
        ensures
            match r {
                Ok(g) => {
                    &&& old(self).state() == snapshot
                    &&& g.snapshot() == snapshot
                    &&& final (self).state() == snapshot + 0b10
                    &&& spec_is_locked(final (self).state())
                    &&& !spec_is_outdate(final (self).state())
                    &&& spec_version(final (self).state()) == spec_version(snapshot)
                    &&& final (self).poison_flag() == old(self).poison_flag()
                    &&& final (self).value() == old(self).value()
                },
                Err(e) => {
                    &&& e == OptimisticLockCouplingErrorType::VersionUpdated
                    &&& old(self).state() != snapshot
                    &&& *final (self) == *old(self)
                },
            },
    {
        proof {
            lemma_acquire_bits(snapshot);
        }
        if self.version_lock_outdate == snapshot {
            self.version_lock_outdate = snapshot + 0b10;
            Ok(OptimisticLockCouplingWriteGuard::new(snapshot))
        } else {
            Err(OptimisticLockCouplingErrorType::VersionUpdated)
        }
    }

    /// Acquires exclusive access: observes the cell through `try_lock`, then
    /// compare-and-swaps the lock bit in.  Fails with the observation's own
    /// classification when the cell is poisoned, outdated or already locked.
    /// Between this call's own observation and its swap nothing can
    /// interpose, so the `VersionUpdated` loss surfaces through
    /// `acquire_write` when the snapshot is taken separately; writers are
    /// not queued and the caller retries at its own discretion.
    pub fn write(&mut self) -> (r: OptimisticLockCouplingResult<OptimisticLockCouplingWriteGuard>)
        ensures
            match r {
                Ok(g) => {
                    &&& try_lock_result(old(self).poison_flag(), old(self).state()) is Ok
                    &&& g.snapshot() == old(self).state()
                    &&& final (self).state() == old(self).state() + 0b10
                    &&& spec_is_locked(final (self).state())
                    &&& !spec_is_outdate(final (self).state())
                    &&& spec_version(final (self).state()) == spec_version(old(self).state())
                    &&& final (self).poison_flag() == old(self).poison_flag()
                    &&& final (self).value() == old(self).value()
                },
                Err(e) => {
                    &&& *final (self) == *old(self)
                    &&& try_lock_result(old(self).poison_flag(), old(self).state()) == Err::<
                        u64,
                        OptimisticLockCouplingErrorType,
                    >(e)
                },
            },
    {
        let version = match self.try_lock() {
            Ok(v) => v,
            Err(e) => {
                return Err(e);
            },
        };
        self.acquire_write(version)
    }

    /// Stores a new value through a live write guard: the writer is the sole
    /// legitimate mutator for the guard's lifetime.  The state word and the
    /// poison flag are untouched — the version advances only when the guard
    /// is released.
    pub fn set_data(&mut self, guard: &OptimisticLockCouplingWriteGuard, t: T)
        requires
            spec_is_locked(old(self).state()),
            old(self).state() == guard.snapshot() + 0b10 || old(self).state() == outdate_word(
                ((guard.snapshot() + 0b10) as u64),
            ),
        ensures
            final (self).value() == t,
            final (self).state() == old(self).state(),
            final (self).poison_flag() == old(self).poison_flag(),
    {
        self.data = t;
    }

    /// The write guard's drop on a thread that is not unwinding: adds `0b10`
    /// to the state word, which — the lock bit being set — clears the lock
    /// bit and advances the version field by exactly one, atomically.  The
    /// value, the outdate bit and the poison flag stay as they are.
    pub fn release_write(&mut self, guard: OptimisticLockCouplingWriteGuard)
        requires
            spec_is_locked(old(self).state()),
            old(self).state() == guard.snapshot() + 0b10 || old(self).state() == outdate_word(
                ((guard.snapshot() + 0b10) as u64),
            ),
            spec_version(old(self).state()) < 0x3FFF_FFFF_FFFF_FFFF,
        ensures
            final (self).state() == old(self).state() + 0b10,
            !spec_is_locked(final (self).state()),
            spec_version(final (self).state()) == spec_version(old(self).state()) + 1,
            spec_is_outdate(final (self).state()) == spec_is_outdate(old(self).state()),
            final (self).poison_flag() == old(self).poison_flag(),
            final (self).value() == old(self).value(),
    {
        proof {
            lemma_release_bits(self.version_lock_outdate);
        }
        let _consumed = guard;
        self.version_lock_outdate = self.version_lock_outdate + 0b10;
    }

    /// The write guard's drop on an unwinding thread: sets the sticky poison
    /// flag and leaves the state word — lock bit included — and the value as
    /// they are.  The version is not advanced, and every subsequent observer
    /// fails with `Poisoned`.
    pub fn poison_write(&mut self, guard: OptimisticLockCouplingWriteGuard)
        requires
            spec_is_locked(old(self).state()),
        ensures
            final (self).poison_flag(),
            final (self).state() == old(self).state(),
            final (self).value() == old(self).value(),
    {
        let _consumed = guard;
        self.poisoned = true;
    }

    /// The reader's transaction envelope: acquire a guard, run the caller's
    /// logic on the value, validate the snapshot.  The classification is
    /// fixed and identical at every site: `Poisoned` and `Outdated` surface
    /// to the caller; `Blocked` and `VersionUpdated` are grounds for
    /// retrying.  Between this cell's own atomic actions nothing can
    /// interpose here, so a retry could never make progress: the two states
    /// that would retry without end — a cell whose lock bit is set, and
    /// logic that fails transiently — are excluded up front, and the
    /// envelope settles in a single pass.
    pub fn read_txn<F, R>(&self, logic: F) -> (r: OptimisticLockCouplingResult<R>) where
        F: Fn(&T) -> OptimisticLockCouplingResult<R>,

        requires
            !spec_is_locked(self.state()),
            forall|t: &T| #[trigger] call_requires(logic, (t,)),
            forall|t: &T, e: OptimisticLockCouplingErrorType|
                #[trigger] call_ensures(logic, (t,), Err(e)) ==> spec_is_permanent(e),
        ensures
            match r {
                Ok(v) => !self.poison_flag() && !spec_is_outdate(self.state()) && exists|t: &T|
                    *t == self.value() && #[trigger] call_ensures(logic, (t,), Ok(v)),
                Err(e) => spec_is_permanent(e) && (try_lock_result(
                    self.poison_flag(),
                    self.state(),
                ) == Err::<u64, OptimisticLockCouplingErrorType>(e) || (try_lock_result(
                    self.poison_flag(),
                    self.state(),
                ) is Ok && exists|t: &T|
                    *t == self.value() && #[trigger] call_ensures(logic, (t,), Err(e)))),
            },
    {
        let guard = match self.read() {
            Ok(g) => g,
            Err(e) => {
                return Err(e);
            },
        };
        let d = self.data();
        let res = logic(d);
        match res {
            Ok(v) => {
                match guard.try_sync(self) {
                    Ok(_) => Ok(v),
                    Err(e) => Err(e),
                }
            },
            Err(e) => Err(e),
        }
    }
}

impl<T> From<T> for OptimisticLockCoupling<T> {
    /// Builds a cell exactly as `new` does.
    fn from(t: T) -> Self {
        Self::new(t)
    }
}

impl<T> vstd::std_specs::convert::FromSpecImpl<T> for OptimisticLockCoupling<T> {
    open spec fn obeys_from_spec() -> bool {
        true
    }

    closed spec fn from_spec(t: T) -> Self {
        OptimisticLockCoupling { version_lock_outdate: 0, poisoned: false, data: t }
    }
}

impl<T: Default> Default for OptimisticLockCoupling<T> {
    /// Builds a cell around the payload's default value, exactly as `new`
    /// does: version 0, not locked, not outdated, not poisoned.
    fn default() -> (r: Self)
        ensures
            r.state() == 0,
            !spec_is_locked(r.state()),
            !spec_is_outdate(r.state()),
            !r.poison_flag(),
    {
        Self::new(T::default())
    }
}

/// What `from` builds, said through the cell's own observers: the same cell
/// that `new` builds.
pub proof fn lemma_from_is_new<T>(t: T)
    ensures
        (#[trigger] OptimisticLockCoupling::from_spec(t)).state() == 0,
        !OptimisticLockCoupling::from_spec(t).poison_flag(),
        OptimisticLockCoupling::from_spec(t).value() == t,
{
}

/// Setting the outdate bit leaves the lock bit and the version field alone.
proof fn lemma_outdate_bits(w: u64)
    by (bit_vector)
    ensures
        (w | 0b1) & 0b1 != 0,
        ((w | 0b1) & 0b10 != 0) == (w & 0b10 != 0),
        (w | 0b1) >> 2u64 == w >> 2u64,
{
}

/// Adding `0b10` to a clean word cannot overflow; it sets the lock bit and
/// leaves the outdate bit and the version field alone.
proof fn lemma_acquire_bits(w: u64)
    by (bit_vector)
    ensures
        w & 0b10 == 0 ==> w <= 0xFFFF_FFFF_FFFF_FFFD,
        w & 0b10 == 0 ==> ((w + 0b10) as u64) & 0b10 != 0,
        w & 0b10 == 0 && w & 0b1 == 0 ==> ((w + 0b10) as u64) & 0b1 == 0,
        w & 0b10 == 0 ==> ((w + 0b10) as u64) >> 2u64 == w >> 2u64,
{
}

/// Adding `0b10` to a locked word below the version ceiling cannot
/// overflow; it clears the lock bit, advances the version field by one and
/// leaves the outdate bit alone.
proof fn lemma_release_bits(w: u64)
    by (bit_vector)
    ensures
        w >> 2u64 < 0x3FFF_FFFF_FFFF_FFFF ==> w <= 0xFFFF_FFFF_FFFF_FFFB,
        w & 0b10 != 0 && w <= 0xFFFF_FFFF_FFFF_FFFB ==> ((w + 0b10) as u64) & 0b10 == 0,
        w & 0b10 != 0 && w <= 0xFFFF_FFFF_FFFF_FFFB ==> ((w + 0b10) as u64) >> 2u64 == (w
            >> 2u64) + 1,
        w & 0b10 != 0 && w <= 0xFFFF_FFFF_FFFF_FFFB ==> ((w + 0b10) as u64) & 0b1 == w & 0b1,
{
}

} // verus!
