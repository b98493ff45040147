//! The mathematical model of one exchange: what the shared state holds, and what each
//! operation makes of it and answers.

use std::task::Waker;
use vstd::prelude::*;

verus! {

/// Where an exchange stands in its life. It starts `Empty` and moves at most once, to
/// `Completed` or to `Canceled`.
pub ghost enum Phase {
    /// No value was accepted and the consumer is still there.
    Empty,
    /// A value was accepted.
    Completed,
    /// The consumer went away before any value was accepted.
    Canceled,
}

/// What a poll of the consumer side found.
#[derive(Debug, PartialEq, Eq)]
pub enum Readiness<T> {
    /// The value, handed over for good.
    Ready(T),
    /// No value yet; the caller's waker was registered.
    Pending,
}

/// Misuse of the consumer side.
#[derive(Debug, Clone, Copy, PartialEq, Eq)]
pub enum NotifyError {
    /// The value was already handed over by an earlier poll.
    AlreadyConsumed,
}

/// The model of the shared state.
pub ghost struct Exchange<T> {
    /// The waker of the consumer that was last found waiting.
    pub pending_waker: Option<Waker>,
    /// The delivered value, until the consumer takes it.
    pub value: Option<T>,
    /// A value was accepted.
    pub is_completed: bool,
    /// The consumer was abandoned before any value was accepted.
    pub is_canceled: bool,
}

impl<T> Exchange<T> {
    /// An exchange is never both completed and canceled, and holds a value only once
    /// completed.
    pub open spec fn wf(self) -> bool {
        &&& !(self.is_completed && self.is_canceled)
        &&& self.value is Some ==> self.is_completed
    }

    /// The exchange as the pairing constructor makes it.
    pub open spec fn empty() -> Self {
        Exchange { pending_waker: None, value: None, is_completed: false, is_canceled: false }
    }

    /// Where the exchange stands.
    pub open spec fn phase(self) -> Phase {
        if self.is_completed {
            Phase::Completed
        } else if self.is_canceled {
            Phase::Canceled
        } else {
            Phase::Empty
        }
    }

    /// The value was delivered and has been taken.
    pub open spec fn is_consumed(self) -> bool {
        self.is_completed && self.value is None
    }

    /// The exchange after the producer offers `value`: the first offer to an empty exchange
    /// is accepted and clears the pending waker, any other offer changes nothing.
    pub open spec fn complete(self, value: T) -> Self {
        if self.phase() is Empty {
            Exchange { pending_waker: None, value: Some(value), is_completed: true, ..self }
        } else {
            self
        }
    }

    /// The waker that an offer hands back to be woken: the pending one if the offer is
    /// accepted, none otherwise.
    pub open spec fn woken_by_complete(self) -> Option<Waker> {
        if self.phase() is Empty {
            self.pending_waker
        } else {
            None
        }
    }

    /// The exchange after a consumer registers `waker`: it is the one pending waker.
    pub open spec fn register(self, waker: Waker) -> Self {
        Exchange { pending_waker: Some(waker), ..self }
    }

    /// The exchange after the consumer is abandoned: no waker is pending, and the exchange
    /// is canceled unless it was completed.
    pub open spec fn cancel(self) -> Self {
        Exchange {
            pending_waker: None,
            is_canceled: self.is_canceled || !self.is_completed,
            ..self
        }
    }

    /// What a poll answers.
    pub open spec fn polled(self) -> Result<Readiness<T>, NotifyError> {
        match self.value {
            Some(value) => Ok(Readiness::Ready(value)),
            None => if self.is_completed {
                Err(NotifyError::AlreadyConsumed)
            } else {
                Ok(Readiness::Pending)
            },
        }
    }

    /// The exchange after a poll with `waker`: a present value is taken, a consumed exchange
    /// stays as it is, and otherwise `waker` is registered.
    pub open spec fn poll(self, waker: Waker) -> Self {
        match self.value {
            Some(_) => Exchange { value: None, ..self },
            None => if self.is_completed {
                self
            } else {
                self.register(waker)
            },
        }
    }
}

} // verus!
