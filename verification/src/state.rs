//! The shared completion state and its transitions.

use crate::exchange::{Exchange, NotifyError, Readiness};
use crate::sync::{guard_mut, lock_raw, poison_into_inner};
use std::sync::{Arc, Mutex, MutexGuard};
use std::task::Waker;
use vstd::prelude::*;

verus! {

/// The record that a producer and a consumer share: the pending waker, the delivered value
/// and the two flags. Its fields change only through the transitions below, each of which
/// keeps the record well-formed.
pub struct NotifyFutureState<T> {
    pending_waker: Option<Waker>,
    value: Option<T>,
    is_completed: bool,
    is_canceled: bool,
}

impl<T> View for NotifyFutureState<T> {
    type V = Exchange<T>;

    closed spec fn view(&self) -> Exchange<T> {
        Exchange {
            pending_waker: self.pending_waker,
            value: self.value,
            is_completed: self.is_completed,
            is_canceled: self.is_canceled,
        }
    }
}

/// Takes the lock, also when an earlier holder panicked. A poisoned lock is no reason to give
/// up: the guarded state is well-formed after every single assignment of a transition, so
/// it is as good as ever.
pub(crate) fn lock_state<'a, S>(mutex: &'a Mutex<S>) -> (guard: MutexGuard<'a, S>)
    opens_invariants none
    no_unwind
{
    match lock_raw(mutex) {
        Ok(guard) => guard,
        Err(poisoned) => poison_into_inner(poisoned),
    }
}

impl<T> NotifyFutureState<T> {
    #[verifier::type_invariant]
    spec fn well_formed(self) -> bool {
        self@.wf()
    }

    /// An empty state: nothing delivered, nobody waiting, not canceled.
    pub fn create() -> (state: Self)
        ensures
            state@ == Exchange::<T>::empty(),
            state@.wf(),
    {
        NotifyFutureState { pending_waker: None, value: None, is_completed: false, is_canceled: false }
    }

    /// An empty state, ready to be shared by one producer and one consumer.
    pub fn new() -> Arc<Mutex<NotifyFutureState<T>>> {
        Arc::new(Mutex::new(Self::create()))
    }

    /// Whether a value was accepted.
    pub fn is_completed(&self) -> (completed: bool)
        ensures
            completed == self@.is_completed,
            self@.wf(),
    {
        proof {
            use_type_invariant(self);
        }
        self.is_completed
    }

    /// Whether the consumer was abandoned before a value was accepted.
    pub fn is_canceled(&self) -> (canceled: bool)
        ensures
            canceled == self@.is_canceled,
            self@.wf(),
    {
        proof {
            use_type_invariant(self);
        }
        self.is_canceled
    }

    /// Offers `value`. An empty state accepts it and hands back the pending waker, which the
    /// caller wakes once the lock is released; a completed or canceled state drops it.
    pub fn complete(&mut self, value: T) -> (woken: Option<Waker>)
        ensures
            final(self)@ == old(self)@.complete(value),
            woken == old(self)@.woken_by_complete(),
            final(self)@.wf(),
    {
        proof {
            use_type_invariant(&*self);
        }
        if self.is_completed || self.is_canceled {
            None
        } else {
            self.is_completed = true;
            self.value = Some(value);
            let mut woken: Option<Waker> = None;
            core::mem::swap(&mut self.pending_waker, &mut woken);
            woken
        }
    }

    /// Makes `waker` the pending waker. A stored waker that wakes the same task is kept as
    /// it is; any other is replaced.
    pub fn register_waiter(&mut self, waker: Waker)
        ensures
            final(self)@ == old(self)@.register(waker),
            final(self)@.wf(),
    {
        proof {
            use_type_invariant(&*self);
        }
        let keep = match &self.pending_waker {
            Some(stored) => stored.will_wake(&waker),
            None => false,
        };
        if !keep {
            self.pending_waker = Some(waker);
        }
    }

    /// Records that the consumer is gone: the pending waker is dropped, and the state is
    /// canceled unless a value was accepted before.
    pub fn mark_canceled_if_incomplete(&mut self)
        ensures
            final(self)@ == old(self)@.cancel(),
            final(self)@.wf(),
        opens_invariants none
        no_unwind
    {
        proof {
            use_type_invariant(&*self);
        }
        self.pending_waker = None;
        if !self.is_completed {
            self.is_canceled = true;
        }
    }

    /// One poll of the consumer. A delivered value is handed over, once; a poll after that
    /// is an error; and while nothing was delivered, `waker` is registered.
    pub fn poll(&mut self, waker: Waker) -> (found: Result<Readiness<T>, NotifyError>)
        ensures
            final(self)@ == old(self)@.poll(waker),
            found == old(self)@.polled(),
            final(self)@.wf(),
    {
        proof {
            use_type_invariant(&*self);
        }
        if self.is_completed {
            let mut taken: Option<T> = None;
            core::mem::swap(&mut self.value, &mut taken);
            match taken {
                Some(value) => Ok(Readiness::Ready(value)),
                None => Err(NotifyError::AlreadyConsumed),
            }
        } else {
            self.register_waiter(waker);
            Ok(Readiness::Pending)
        }
    }

    /// Delivers `result` to the shared state: the transition runs under the lock, and the
    /// waker that it hands back is woken after the lock is released.
    pub fn set_complete(state: &Arc<Mutex<NotifyFutureState<T>>>, result: T) {
        let woken = {
            let mut guard = lock_state(state);
            guard_mut(&mut guard).complete(result)
        };
        match woken {
            Some(waker) => waker.wake(),
            None => {},
        }
    }
}

} // verus!
