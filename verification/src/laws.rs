//! The laws of the read/write discipline, stated over the state-word model
//! and proved once and for all.

use vstd::prelude::*;

use crate::OptimisticLockCoupling;
use crate::OptimisticLockCouplingErrorType;
use crate::outdate_word;
use crate::spec_is_locked;
use crate::spec_is_outdate;
use crate::spec_version;
use crate::sync_result;
use crate::try_lock_result;

verus! {

/// A full writer cycle on a clean word — acquire (`+0b10`), then normal
/// release (`+0b10`) — advances the version field by exactly one, leaves the
/// lock bit clear and leaves the outdate bit clear.
pub proof fn lemma_write_cycle(w: u64)
    requires
        !spec_is_locked(w),
        !spec_is_outdate(w),
        spec_version(w) < 0x3FFF_FFFF_FFFF_FFFF,
    ensures
        spec_version((w + 0b100) as u64) == spec_version(w) + 1,
        !spec_is_locked((w + 0b100) as u64),
        !spec_is_outdate((w + 0b100) as u64),
{
    assert(spec_version((w + 0b100) as u64) == spec_version(w) + 1 && !spec_is_locked(
        (w + 0b100) as u64,
    ) && !spec_is_outdate((w + 0b100) as u64)) by (bit_vector)
        requires
            !spec_is_locked(w),
            !spec_is_outdate(w),
            spec_version(w) < 0x3FFF_FFFF_FFFF_FFFF,
    ;
}

/// Validation is exact: whenever `try_sync` reports success, the freshly
/// observed state word equals the acquisition snapshot bit for bit, the cell
/// is not poisoned, and the snapshot carries neither flag bit.
pub proof fn lemma_sync_validates(poisoned: bool, word: u64, snapshot: u64)
    ensures
        sync_result(poisoned, word, snapshot) is Ok ==> word == snapshot && !poisoned
            && !spec_is_outdate(word) && !spec_is_locked(word),
{
}

/// An outdated cell rejects every reader and writer: once the outdate bit is
/// set, `try_lock` — and with it `read` and `write` — fails with `Outdated`
/// (unless the poison flag, which is checked first, is set).
pub proof fn lemma_outdated_rejects(poisoned: bool, word: u64)
    ensures
        !poisoned && spec_is_outdate(word) ==> try_lock_result(poisoned, word) == Err::<
            u64,
            OptimisticLockCouplingErrorType,
        >(OptimisticLockCouplingErrorType::Outdated),
{
}

/// A poisoned cell rejects every reader and writer: whatever the state word
/// holds, `try_lock` — and with it `read` and `write` — fails with
/// `Poisoned`.
pub proof fn lemma_poisoned_rejects(word: u64)
    ensures
        try_lock_result(true, word) == Err::<u64, OptimisticLockCouplingErrorType>(
            OptimisticLockCouplingErrorType::Poisoned,
        ),
{
}

/// Marking a cell outdated is idempotent: a second mark leaves the same
/// state word as the first.
pub proof fn lemma_make_outdate_idempotent(word: u64)
    ensures
        outdate_word(outdate_word(word)) == outdate_word(word),
{
    assert(outdate_word(outdate_word(word)) == outdate_word(word)) by (bit_vector);
}

/// While a writer holds the lock bit, a reader's acquisition fails with
/// `Blocked`.
pub proof fn lemma_locked_blocks(poisoned: bool, word: u64)
    ensures
        !poisoned && !spec_is_outdate(word) && spec_is_locked(word) ==> try_lock_result(
            poisoned,
            word,
        ) == Err::<u64, OptimisticLockCouplingErrorType>(OptimisticLockCouplingErrorType::Blocked),
{
}

/// Once the cell is outdated, validation fails with `Outdated` whatever the
/// acquisition snapshot was — regardless of whether the version advanced.
pub proof fn lemma_sync_outdated(poisoned: bool, word: u64, snapshot: u64)
    ensures
        !poisoned && spec_is_outdate(word) ==> sync_result(poisoned, word, snapshot) == Err::<
            (),
            OptimisticLockCouplingErrorType,
        >(OptimisticLockCouplingErrorType::Outdated),
{
}

/// A snapshot taken from a clean cell validates against the unchanged cell.
/// Neither `read` nor `try_sync` writes anything — both take the cell by
/// shared reference — so the round trip `new`, `read`, `try_sync` succeeds
/// and leaves the cell bit-identical to its initial state.
pub proof fn lemma_clean_read_syncs(poisoned: bool, word: u64)
    ensures
        try_lock_result(poisoned, word) == Ok::<u64, OptimisticLockCouplingErrorType>(word)
            ==> sync_result(poisoned, word, word) is Ok,
{
}

/// The concurrent counter, as the sequence of atomic actions that any
/// interleaving of writers reduces to: every writer cycle `{acquire; add 1;
/// release}` that completes adds exactly one to the value and one to the
/// version field, so `rounds` completed cycles — however they were
/// distributed over writers — add exactly `rounds`.
pub fn counter_write_rounds(cell: &mut OptimisticLockCoupling<u64>, rounds: u64)
    requires
        !old(cell).poison_flag(),
        !spec_is_locked(old(cell).state()),
        !spec_is_outdate(old(cell).state()),
        spec_version(old(cell).state()) + rounds <= 0x3FFF_FFFF_FFFF_FFFF,
        old(cell).value() + rounds <= u64::MAX,
    ensures
        final (cell).value() == old(cell).value() + rounds,
        spec_version(final (cell).state()) == spec_version(old(cell).state()) + rounds,
        !spec_is_locked(final (cell).state()),
        !spec_is_outdate(final (cell).state()),
        !final (cell).poison_flag(),
{
    let ghost init = *cell;
    let mut i: u64 = 0;
    while i < rounds
        invariant
            i <= rounds,
            !cell.poison_flag(),
            !spec_is_locked(cell.state()),
            !spec_is_outdate(cell.state()),
            cell.value() == init.value() + i,
            spec_version(cell.state()) == spec_version(init.state()) + i,
            spec_version(init.state()) + rounds <= 0x3FFF_FFFF_FFFF_FFFF,
            init.value() + rounds <= u64::MAX,
        decreases rounds - i,
    {
        let guard = match cell.write() {
            Ok(g) => g,
            Err(_) => {
                // A clean, unpoisoned cell always admits a writer.
                return ;
            },
        };
        let v = *cell.data();
        cell.set_data(&guard, v + 1);
        cell.release_write(guard);
        i = i + 1;
    }
}

} // verus!
