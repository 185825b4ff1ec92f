//! The handoff slot: a mailbox for at most one value.
//!
//! A connection has two of them, one for the request on its way to the host
//! and one for the response on its way back. Each is shared by its two ends
//! behind a mutex; the functions at the end of this module take the lock for
//! the length of one operation on the slot.

use vstd::prelude::*;
use std::ops::DerefMut;
use std::sync::Mutex;
use std::sync::MutexGuard;
use std::sync::PoisonError;

verus! {

/// The refusal to take from an empty slot. It marks an error of the caller,
/// who is to test `has` first, and is no answer to recover from: a caller
/// that gets it stops.
#[derive(Clone, Copy, Debug, PartialEq, Eq, Structural)]
pub struct EmptySlot;

/// A mailbox that is empty or holds one value. Its view is what it holds.
#[derive(Debug)]
pub struct HandoffSlot<T> {
    value: Option<T>,
}

impl<T> View for HandoffSlot<T> {
    type V = Option<T>;

    closed spec fn view(&self) -> Option<T> {
        self.value
    }
}

impl<T> HandoffSlot<T> {
    /// What the slot holds after `set(value)`, whatever it held before: the
    /// last write wins.
    pub open spec fn set_spec(self, value: Option<T>) -> Option<T> {
        value
    }

    /// Whether the slot holds a value.
    pub open spec fn has_spec(self) -> bool {
        self@ is Some
    }

    /// What `take` hands out of a slot that holds a value, and what the slot
    /// holds afterwards.
    pub open spec fn take_spec(self) -> (T, Option<T>)
        recommends
            self.has_spec(),
    {
        (self@->0, None)
    }

    /// An empty slot.
    pub fn new() -> (slot: HandoffSlot<T>)
        ensures
            slot@ is None,
    {
        HandoffSlot { value: None }
    }

    /// Puts `value` in place of whatever the slot holds.
    pub fn set(&mut self, value: Option<T>)
        ensures
            final(self)@ == old(self).set_spec(value),
    {
        self.value = value;
    }

    /// Whether the slot holds a value.
    pub fn has(&self) -> (full: bool)
        ensures
            full == self.has_spec(),
    {
        self.value.is_some()
    }

    /// Hands out the value and leaves the slot empty. To take from an empty
    /// slot is an error of the caller, who tests `has` first.
    pub fn take(&mut self) -> (value: T)
        requires
            old(self).has_spec(),
        ensures
            (value, final(self)@) == old(self).take_spec(),
    {
        let taken = self.value.take();
        taken.unwrap()
    }

    /// What `take_if_full` returns: the value of a slot that holds one, and
    /// the refusal for an empty slot.
    pub open spec fn take_if_full_spec(self) -> Result<T, EmptySlot> {
        match self@ {
            Some(value) => Ok(value),
            None => Err(EmptySlot),
        }
    }

    /// Hands out the value and leaves the slot empty, or refuses where the
    /// slot is empty, which it stays.
    pub fn take_if_full(&mut self) -> (taken: Result<T, EmptySlot>)
        ensures
            taken == old(self).take_if_full_spec(),
            final(self)@ is None,
    {
        if self.has() {
            Ok(self.take())
        } else {
            Err(EmptySlot)
        }
    }
}

impl<T> Default for HandoffSlot<T> {
    /// An empty slot.
    fn default() -> (slot: HandoffSlot<T>)
        ensures
            slot@ is None,
    {
        HandoffSlot::new()
    }
}

/// After `set(Some(v))` the slot has a value, whatever it held before; `take`
/// may then be called, returns `v`, and leaves the slot without a value.
pub proof fn lemma_set_then_take<T>(before: HandoffSlot<T>, written: HandoffSlot<T>, v: T)
    requires
        written@ == before.set_spec(Some(v)),
    ensures
        written.has_spec(),
        written.take_spec().0 == v,
        written.take_spec().1 is None,
{
}

/// After `set(None)` the slot has no value, whatever it held before.
pub proof fn lemma_set_none_empties<T>(before: HandoffSlot<T>, written: HandoffSlot<T>)
    requires
        written@ == before.set_spec(None),
    ensures
        !written.has_spec(),
{
}

/// `std::sync::Mutex`. It is shared with another thread, so nothing is
/// claimed of what it guards.
#[verifier::external_type_specification]
#[verifier::external_body]
#[verifier::reject_recursive_types(T)]
pub struct ExMutex<T: ?Sized>(Mutex<T>);

/// `std::sync::MutexGuard`: the guard of a locked mutex; the lock is released
/// when it is dropped.
#[verifier::external_type_specification]
#[verifier::external_body]
#[verifier::reject_recursive_types(T)]
pub struct ExMutexGuard<'a, T: ?Sized + 'a>(MutexGuard<'a, T>);

/// `std::sync::PoisonError`: the error of a lock whose mutex is poisoned, as
/// it is once a thread has panicked while it held the guard. It carries the
/// guard.
#[verifier::external_type_specification]
#[verifier::external_body]
#[verifier::reject_recursive_types(T)]
pub struct ExPoisonError<T>(PoisonError<T>);

/// `Mutex::lock`: waits for the lock and returns its guard, or the error of a
/// poisoned mutex, which carries the guard. Nothing is claimed of what the
/// guard leads to. A thread that already holds the lock must not call it.
#[verifier::external_body]
fn lock_slot<'a, T>(cell: &'a Mutex<HandoffSlot<T>>) -> (locked: Result<
    MutexGuard<'a, HandoffSlot<T>>,
    PoisonError<MutexGuard<'a, HandoffSlot<T>>>,
>) {
    cell.lock()
}

/// `PoisonError::into_inner`: the guard that the error carries.
#[verifier::external_body]
fn recover_guard<'a, T>(error: PoisonError<MutexGuard<'a, HandoffSlot<T>>>) -> (guard: MutexGuard<
    'a,
    HandoffSlot<T>,
>) {
    error.into_inner()
}

/// `DerefMut::deref_mut` of the guard: the slot behind the lock, for as long
/// as the guard is borrowed. Nothing is claimed of what the slot holds.
#[verifier::external_body]
fn guarded_slot<'a, 'b, T>(guard: &'b mut MutexGuard<'a, HandoffSlot<T>>) -> (slot: &'b mut HandoffSlot<T>) {
    guard.deref_mut()
}

/// The guard that a lock gave: the one it returned, or the one inside the
/// error of a poisoned mutex. A slot is whole after every operation, so a
/// panic elsewhere leaves nothing to repair.
fn guard_in<'a, T>(
    locked: Result<MutexGuard<'a, HandoffSlot<T>>, PoisonError<MutexGuard<'a, HandoffSlot<T>>>>,
) -> (guard: MutexGuard<'a, HandoffSlot<T>>)
    ensures
        locked matches Ok(held) ==> guard == held,
{
    match locked {
        Ok(guard) => guard,
        Err(error) => recover_guard(error),
    }
}

/// Locks `cell`, whether or not it is poisoned.
fn guard_of<'a, T>(cell: &'a Mutex<HandoffSlot<T>>) -> (guard: MutexGuard<'a, HandoffSlot<T>>) {
    guard_in(lock_slot(cell))
}

/// Puts `value` into the shared slot, in place of whatever it holds: `set`
/// on the slot behind the lock. The other end may change the slot before and
/// after, so nothing is said here of what it holds.
pub fn shared_set<T>(cell: &Mutex<HandoffSlot<T>>, value: Option<T>) {
    let mut guard = guard_of(cell);
    let slot = guarded_slot(&mut guard);
    slot.set(value);
}

/// Whether the shared slot holds a value at the moment of the call: `has` on
/// the slot behind the lock.
pub fn shared_has<T>(cell: &Mutex<HandoffSlot<T>>) -> (full: bool) {
    let mut guard = guard_of(cell);
    let slot = guarded_slot(&mut guard);
    slot.has()
}

/// Takes the value out of the shared slot and leaves the slot empty:
/// `take_if_full` on the slot behind the lock. Where the slot is empty at the
/// moment of the call, the result is the refusal `EmptySlot`: the caller has
/// not tested `shared_has` first, or is not the only one who takes.
pub fn shared_take<T>(cell: &Mutex<HandoffSlot<T>>) -> (taken: Result<T, EmptySlot>) {
    let mut guard = guard_of(cell);
    let slot = guarded_slot(&mut guard);
    slot.take_if_full()
}

} // verus!
