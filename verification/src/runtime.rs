//! Single-slot runtime registry: holds at most one live runtime instance so
//! that independent host calls can reach the same long-lived object.
//!
//! The slot starts empty, is populated by an explicit install, and a later
//! install replaces the previous occupant, dropping it first -- at most one
//! runtime is ever live. A slot whose guarding lock was left inconsistent is
//! poisoned: both operations then fail with a recoverable error instead of
//! crashing the process. The unverified layer owns the actual process-wide
//! static and its lock; it maps the lock's state into this slot's.

use crate::HarnessError;
use vstd::prelude::*;

verus! {

/// A wrapper giving a runtime instance one fixed shape for the slot to own.
///
/// The unverified layer keeps a matching wrapper around the real runtime to
/// carry the thread-safety markers the surrounding binding demands.
pub struct MockRuntime<T> {
    pub runtime: T,
}

impl<T> MockRuntime<T> {
    /// Wraps a runtime instance.
    pub fn new(runtime: T) -> (w: MockRuntime<T>)
        ensures
            w == (MockRuntime { runtime }),
    {
        MockRuntime { runtime }
    }
}

/// The process-wide slot: zero or one installed runtime, plus whether the
/// guarding lock was observed in an inconsistent state.
pub struct RuntimeSlot<T> {
    pub cell: Option<MockRuntime<T>>,
    pub poisoned: bool,
}

/// The slot an install leaves behind: untouched when the lock is poisoned,
/// otherwise holding exactly the new runtime.
pub open spec fn slot_after_install<T>(slot: RuntimeSlot<T>, runtime: T) -> RuntimeSlot<T> {
    if slot.poisoned {
        slot
    } else {
        RuntimeSlot { cell: Some(MockRuntime { runtime }), poisoned: false }
    }
}

/// What an install reports: failure exactly when the lock is poisoned.
pub open spec fn install_report<T>(slot: RuntimeSlot<T>) -> Result<(), HarnessError> {
    if slot.poisoned {
        Err(HarnessError::LockPoisoned)
    } else {
        Ok(())
    }
}

impl<T> RuntimeSlot<T> {
    /// The empty, healthy slot every process starts with.
    pub fn new() -> (slot: RuntimeSlot<T>)
        ensures
            slot.cell is None,
            !slot.poisoned,
    {
        RuntimeSlot { cell: None, poisoned: false }
    }

    /// Records that the guarding lock was observed in an inconsistent
    /// state; accessors fail with `LockPoisoned` from here on.
    pub fn mark_poisoned(&mut self)
        ensures
            final(self).cell == old(self).cell,
            final(self).poisoned,
    {
        self.poisoned = true;
    }
}

/// Installs `runtime` as the one live instance, replacing -- and thereby
/// dropping -- any previous occupant before returning. Fails with
/// `LockPoisoned`, leaving the slot as it was, when the lock is poisoned.
pub fn set_runtime<T>(slot: &mut RuntimeSlot<T>, runtime: T) -> (res: Result<(), HarnessError>)
    ensures
        *final(slot) == slot_after_install(*old(slot), runtime),
        res == install_report(*old(slot)),
{
    if slot.poisoned {
        return Err(HarnessError::LockPoisoned);
    }
    let wrapped = MockRuntime::new(runtime);
    slot.cell = Some(wrapped);
    Ok(())
}

/// Hands out the installed runtime, valid until the next install. Fails
/// with `LockPoisoned` on a poisoned slot and `NotInitialized` on an empty
/// one, leaving the slot unchanged in both cases.
pub fn get_runtime<'a, T>(slot: &'a mut RuntimeSlot<T>) -> (res: Result<&'a mut T, HarnessError>)
    ensures
        old(slot).poisoned ==> res == Err::<&'a mut T, HarnessError>(HarnessError::LockPoisoned)
            && *final(slot) == *old(slot),
        !old(slot).poisoned && old(slot).cell is None ==> res == Err::<&'a mut T, HarnessError>(
            HarnessError::NotInitialized,
        ) && *final(slot) == *old(slot),
        !old(slot).poisoned && old(slot).cell is Some ==> res is Ok && *(res->Ok_0)
            == old(slot).cell->0.runtime && !final(slot).poisoned && final(slot).cell == Some(
            MockRuntime { runtime: *final(res->Ok_0) },
        ),
{
    if slot.poisoned {
        return Err(HarnessError::LockPoisoned);
    }
    match &mut slot.cell {
        Some(wrapped) => Ok(&mut wrapped.runtime),
        None => Err(HarnessError::NotInitialized),
    }
}

/// Law: the registry keeps a single owner -- after installing `r1` and then
/// `r2` in a healthy slot, the slot holds exactly `r2`; `r1` was replaced
/// (and so released) by the second install.
pub proof fn lemma_second_install_wins<T>(slot: RuntimeSlot<T>, r1: T, r2: T)
    requires
        !slot.poisoned,
    ensures
        slot_after_install(slot_after_install(slot, r1), r2).cell == Some(
            MockRuntime { runtime: r2 },
        ),
        install_report(slot_after_install(slot, r1)) == Ok::<(), HarnessError>(()),
{
}

} // verus!
