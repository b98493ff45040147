//! The pieces of `std` that the shared state rests on: the mutex that guards it and the
//! waker that resumes a suspended consumer. Verus takes every contract in this file on trust.

use std::ops::DerefMut;
use std::sync::{LockResult, Mutex, MutexGuard, PoisonError};
use std::task::Waker;
use vstd::prelude::*;

verus! {

/// `std::sync::Mutex`, opaque: nothing is known of the value it guards.
#[verifier::external_type_specification]
#[verifier::external_body]
#[verifier::reject_recursive_types(T)]
pub struct ExMutex<T: ?Sized>(Mutex<T>);

/// `std::sync::MutexGuard`, opaque.
#[verifier::external_type_specification]
#[verifier::external_body]
#[verifier::reject_recursive_types(T)]
pub struct ExMutexGuard<'a, T: ?Sized + 'a>(MutexGuard<'a, T>);

/// `std::sync::PoisonError`, opaque.
#[verifier::external_type_specification]
#[verifier::external_body]
#[verifier::reject_recursive_types(T)]
pub struct ExPoisonError<T>(PoisonError<T>);

/// `std::task::Waker`, opaque. Contracts compare wakers with `==`; two wakers are the same
/// value to them when they wake the same task.
#[verifier::external_type_specification]
#[verifier::external_body]
pub struct ExWaker(Waker);

/// `Mutex::new`: a fresh, unlocked mutex around `value`. Nothing is claimed of the result.
pub assume_specification<T>[ Mutex::<T>::new ](value: T) -> (mutex: Mutex<T>);

/// `Waker::wake`: asks the executor to poll the waker's task again. The effect lies outside
/// the program's own state, so the contract is empty.
pub assume_specification[ Waker::wake ](waker: Waker);

/// `Waker::will_wake`: a `true` answer guarantees that both wakers wake the same task, and
/// the contract says so by calling them equal. A `false` answer promises nothing: the
/// comparison is best-effort.
pub assume_specification[ Waker::will_wake ](waker: &Waker, other: &Waker) -> (same: bool)
    ensures
        same ==> *waker == *other,
;

/// `Mutex::lock`: blocks until the calling thread holds the mutex, then hands back the
/// guard, or the poison error that carries the guard where an earlier holder panicked.
/// Nothing is claimed of the guarded value.
///
/// The call is taken not to unwind. `std` lets it panic, or block forever, only where the
/// calling thread already holds the mutex. This crate never locks with a guard alive: each
/// guard is released before the function that took it returns, and under it runs nothing but
/// one transition of the guarded state. Only a value or a waker whose destructor reached
/// back into the same exchange, while a transition discards it, could bring the case about.
#[verifier::external_body]
pub(crate) fn lock_raw<'a, T>(mutex: &'a Mutex<T>) -> (locked: LockResult<MutexGuard<'a, T>>)
    opens_invariants none
    no_unwind
{
    mutex.lock()
}

/// `PoisonError::into_inner`: hands over the guard that the error of a poisoned lock
/// carries. Nothing is claimed of the result.
#[verifier::external_body]
pub(crate) fn poison_into_inner<G>(poisoned: PoisonError<G>) -> (guard: G)
    opens_invariants none
    no_unwind
{
    poisoned.into_inner()
}

/// `DerefMut::deref_mut` of `MutexGuard`: exclusive access to the guarded value for as long
/// as the guard is borrowed. Nothing is claimed of the value found there.
#[verifier::external_body]
pub(crate) fn guard_mut<'g, 'a, T>(guard: &'g mut MutexGuard<'a, T>) -> (value: &'g mut T)
    opens_invariants none
    no_unwind
{
    guard.deref_mut()
}

} // verus!
