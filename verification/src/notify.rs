//! The handles that users hold: the producer, the consumer, and the cloneable handle that is
//! both.
//!
//! A handle holds a reference to the shared state. Each of its operations takes the lock,
//! runs one transition of [`NotifyFutureState`], and releases the lock. What the transition
//! does is stated on the transition. Of what a handle finds under the lock nothing can be
//! stated, because the other side may have moved the state at any time before; what a
//! handle's contract states is what the handle knows by itself.

use crate::exchange::{NotifyError, Readiness};
use crate::state::{lock_state, NotifyFutureState};
use crate::sync::guard_mut;
use std::sync::{Arc, Mutex};
use std::task::Waker;
use vstd::prelude::*;

verus! {

/// The producer side of a pair: it delivers the value, once.
#[verifier::reject_recursive_types(T)]
pub struct Notify<T> {
    state: Arc<Mutex<NotifyFutureState<T>>>,
}

/// The consumer side of a pair: it polls for the value, and cancels the exchange when it is
/// dropped before a value arrived.
#[verifier::reject_recursive_types(T)]
pub struct NotifyWaiter<T> {
    state: Arc<Mutex<NotifyFutureState<T>>>,
    resolved: bool,
}

/// A cloneable handle that both delivers and polls. Any clone may deliver; the value goes to
/// the first poll that finds it. Dropping a clone cancels nothing.
#[verifier::reject_recursive_types(T)]
pub struct NotifyFuture<T> {
    state: Arc<Mutex<NotifyFutureState<T>>>,
    resolved: bool,
}

/// Whether a poll handed the value over.
fn is_ready<T>(found: &Result<Readiness<T>, NotifyError>) -> (ready: bool)
    ensures
        ready <==> *found matches Ok(Readiness::Ready(_)),
{
    match found {
        Ok(Readiness::Ready(_)) => true,
        _ => false,
    }
}

/// One poll through a consumer handle, whose memory of having resolved is `resolved`. A
/// resolved handle fails at once; any other polls the state under the lock and remembers a
/// value handed over.
fn poll_shared<T>(
    state: &Mutex<NotifyFutureState<T>>,
    resolved: &mut bool,
    waker: Waker,
) -> (found: Result<Readiness<T>, NotifyError>)
    ensures
        *old(resolved) ==> found == Err::<Readiness<T>, NotifyError>(NotifyError::AlreadyConsumed),
        *final(resolved) <==> *old(resolved) || found matches Ok(Readiness::Ready(_)),
{
    if *resolved {
        return Err(NotifyError::AlreadyConsumed);
    }
    let found = {
        let mut guard = lock_state(state);
        guard_mut(&mut guard).poll(waker)
    };
    *resolved = is_ready(&found);
    found
}

impl<T> Notify<T> {
    /// The shared state that this handle is bound to.
    pub closed spec fn shared(&self) -> Arc<Mutex<NotifyFutureState<T>>> {
        self.state
    }

    /// A producer and a consumer bound to one fresh, empty state.
    pub fn new() -> (pair: (Notify<T>, NotifyWaiter<T>))
        ensures
            pair.0.shared() == pair.1.shared(),
            !pair.1.is_resolved(),
    {
        let state = NotifyFutureState::new();
        (Notify { state: state.clone() }, NotifyWaiter::new(state))
    }

    /// Delivers `result` and wakes the consumer if it is waiting. Where the exchange is
    /// already completed or canceled, `result` is dropped and nothing else happens.
    pub fn notify(self, result: T) {
        NotifyFutureState::set_complete(&self.state, result);
    }

    /// Whether the consumer was dropped before a value was delivered. The answer is a
    /// snapshot: a consumer that is still there may go at any moment.
    pub fn is_canceled(&self) -> bool {
        let mut guard = lock_state(&self.state);
        guard_mut(&mut guard).is_canceled()
    }
}

impl<T> NotifyWaiter<T> {
    /// The shared state that this handle is bound to.
    pub closed spec fn shared(&self) -> Arc<Mutex<NotifyFutureState<T>>> {
        self.state
    }

    /// This handle has handed the value over.
    pub closed spec fn is_resolved(&self) -> bool {
        self.resolved
    }

    /// The consumer of `state`.
    pub(crate) fn new(state: Arc<Mutex<NotifyFutureState<T>>>) -> (waiter: NotifyWaiter<T>)
        ensures
            waiter.shared() == state,
            !waiter.is_resolved(),
    {
        NotifyWaiter { state, resolved: false }
    }

    /// Polls the shared state on behalf of the task that `waker` wakes, as
    /// [`NotifyFutureState::poll`] does. The handle remembers that it has handed the value
    /// over: from then on every poll is an error.
    pub fn poll(&mut self, waker: Waker) -> (found: Result<Readiness<T>, NotifyError>)
        ensures
            old(self).is_resolved() ==> found == Err::<Readiness<T>, NotifyError>(
                NotifyError::AlreadyConsumed,
            ),
            final(self).is_resolved() <==> old(self).is_resolved() || found matches Ok(
                Readiness::Ready(_),
            ),
            final(self).shared() == old(self).shared(),
    {
        poll_shared(&self.state, &mut self.resolved, waker)
    }
}

impl<T> Drop for NotifyWaiter<T> {
    /// Marks the exchange canceled unless it was completed.
    fn drop(&mut self)
        opens_invariants none
        no_unwind
    {
        let mut guard = lock_state(&self.state);
        guard_mut(&mut guard).mark_canceled_if_incomplete();
    }
}

impl<T> NotifyFuture<T> {
    /// The shared state that this handle is bound to.
    pub closed spec fn shared(&self) -> Arc<Mutex<NotifyFutureState<T>>> {
        self.state
    }

    /// This handle has handed the value over.
    pub closed spec fn is_resolved(&self) -> bool {
        self.resolved
    }

    /// A handle to a fresh, empty state.
    pub fn new() -> (handle: NotifyFuture<T>)
        ensures
            !handle.is_resolved(),
    {
        NotifyFuture { state: NotifyFutureState::new(), resolved: false }
    }

    /// Delivers `result` and wakes the task that waits for it. Only the first delivery
    /// counts.
    pub fn set_complete(&self, result: T) {
        NotifyFutureState::set_complete(&self.state, result);
    }

    /// Polls the shared state on behalf of the task that `waker` wakes, as
    /// [`NotifyFutureState::poll`] does. The handle remembers that it has handed the value
    /// over: from then on every poll is an error.
    pub fn poll(&mut self, waker: Waker) -> (found: Result<Readiness<T>, NotifyError>)
        ensures
            old(self).is_resolved() ==> found == Err::<Readiness<T>, NotifyError>(
                NotifyError::AlreadyConsumed,
            ),
            final(self).is_resolved() <==> old(self).is_resolved() || found matches Ok(
                Readiness::Ready(_),
            ),
            final(self).shared() == old(self).shared(),
    {
        poll_shared(&self.state, &mut self.resolved, waker)
    }
}

impl<T> Clone for NotifyFuture<T> {
    /// Another handle to the same state.
    fn clone(&self) -> (handle: NotifyFuture<T>)
        ensures
            handle.shared() == self.shared(),
            handle.is_resolved() == self.is_resolved(),
    {
        NotifyFuture { state: self.state.clone(), resolved: self.resolved }
    }
}

} // verus!
