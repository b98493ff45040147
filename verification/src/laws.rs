//! What holds of every exchange, whatever is done to it and in whatever order.
//!
//! The operations on the shared state are serialized by its lock, so a history of an exchange
//! is a sequence of events. The laws below speak of all such sequences.

use crate::exchange::{Exchange, NotifyError, Readiness};
use std::task::Waker;
use vstd::prelude::*;

verus! {

/// One operation on the shared state.
pub ghost enum Event<T> {
    /// The producer offers a value.
    Complete(T),
    /// A consumer registers its waker.
    Register(Waker),
    /// A consumer polls.
    Poll(Waker),
    /// The consumer is dropped.
    Cancel,
}

impl<T> Exchange<T> {
    /// The exchange after one event.
    pub open spec fn step(self, event: Event<T>) -> Self {
        match event {
            Event::Complete(value) => self.complete(value),
            Event::Register(waker) => self.register(waker),
            Event::Poll(waker) => self.poll(waker),
            Event::Cancel => self.cancel(),
        }
    }

    /// The exchange after a sequence of events, the first of them first.
    pub open spec fn run(self, events: Seq<Event<T>>) -> Self
        decreases events.len(),
    {
        if events.len() == 0 {
            self
        } else {
            self.step(events.first()).run(events.drop_first())
        }
    }
}

/// The offers of `values`, in order.
pub open spec fn offers<T>(values: Seq<T>) -> Seq<Event<T>> {
    Seq::new(values.len(), |i: int| Event::Complete(values[i]))
}

/// No event can make a well-formed exchange ill-formed: it is never both completed and
/// canceled, and it holds a value only once completed.
pub proof fn lemma_run_keeps_wf<T>(start: Exchange<T>, events: Seq<Event<T>>)
    requires
        start.wf(),
    ensures
        start.run(events).wf(),
    decreases events.len(),
{
    if events.len() > 0 {
        lemma_run_keeps_wf(start.step(events.first()), events.drop_first());
    }
}

/// The two flags only ever go up: a completed exchange stays completed and a canceled one
/// stays canceled, whatever follows. So an exchange that has left the empty phase stays in
/// the phase it went to.
pub proof fn lemma_flags_never_revert<T>(start: Exchange<T>, events: Seq<Event<T>>)
    requires
        start.wf(),
    ensures
        start.is_completed ==> start.run(events).is_completed,
        start.is_canceled ==> start.run(events).is_canceled,
        !(start.phase() is Empty) ==> start.run(events).phase() == start.phase(),
    decreases events.len(),
{
    if events.len() > 0 {
        lemma_flags_never_revert(start.step(events.first()), events.drop_first());
    }
}

/// A delivered value stays as it is until a poll takes it: no later offer, registration or
/// cancellation touches it.
pub proof fn lemma_delivered_value_stays<T>(start: Exchange<T>, events: Seq<Event<T>>)
    requires
        start.wf(),
        start.value is Some,
        forall|i: int| 0 <= i < events.len() ==> !(#[trigger] events[i] is Poll),
    ensures
        start.run(events).value == start.value,
        start.run(events).polled() == Ok::<Readiness<T>, NotifyError>(Readiness::Ready(start.value->0)),
    decreases events.len(),
{
    if events.len() > 0 {
        lemma_delivered_value_stays(start.step(events.first()), events.drop_first());
    }
}

/// Single delivery. Of any offers made to an empty exchange, in any number and with any
/// values, the consumer receives the first.
pub proof fn lemma_single_delivery<T>(start: Exchange<T>, values: Seq<T>)
    requires
        start.wf(),
        start.phase() is Empty,
        values.len() > 0,
    ensures
        start.run(offers(values)).polled() == Ok::<Readiness<T>, NotifyError>(Readiness::Ready(values[0])),
{
    lemma_delivered_value_stays(start.complete(values[0]), offers(values).drop_first());
}

/// First write wins. Once an empty exchange has accepted `first`, the next poll finds
/// `first`, whatever offers, registrations and cancellations come in between.
pub proof fn lemma_first_completion_wins<T>(start: Exchange<T>, first: T, later: Seq<Event<T>>)
    requires
        start.wf(),
        start.phase() is Empty,
        forall|i: int| 0 <= i < later.len() ==> !(#[trigger] later[i] is Poll),
    ensures
        start.complete(first).run(later).polled() == Ok::<Readiness<T>, NotifyError>(Readiness::Ready(first)),
{
    lemma_delivered_value_stays(start.complete(first), later);
}

/// Cancellation visibility. When the consumer is dropped before any value was accepted, the
/// exchange is canceled, and stays so whatever follows.
pub proof fn lemma_cancellation_is_visible<T>(start: Exchange<T>, later: Seq<Event<T>>)
    requires
        start.wf(),
        !start.is_completed,
    ensures
        start.cancel().is_canceled,
        start.cancel().run(later).is_canceled,
{
    lemma_flags_never_revert(start.cancel(), later);
}

/// No resurrection. A canceled exchange ignores every offer: the offer changes nothing and
/// wakes nobody, and no poll will ever find a value.
pub proof fn lemma_no_resurrection<T>(start: Exchange<T>, value: T, later: Seq<Event<T>>)
    requires
        start.wf(),
        start.is_canceled,
    ensures
        start.complete(value) == start,
        start.woken_by_complete() is None,
        start.run(later).is_canceled,
        start.run(later).value is None,
        start.run(later).polled() == Ok::<Readiness<T>, NotifyError>(Readiness::Pending),
    decreases later.len(),
{
    if later.len() > 0 {
        lemma_no_resurrection(start.step(later.first()), value, later.drop_first());
    }
}

/// Exactly-once resolution. After the poll that took the value, every further poll is an
/// error, whatever happens in between.
pub proof fn lemma_exactly_once<T>(start: Exchange<T>, waker: Waker, later: Seq<Event<T>>)
    requires
        start.wf(),
        start.value is Some,
    ensures
        start.polled() == Ok::<Readiness<T>, NotifyError>(Readiness::Ready(start.value->0)),
        start.poll(waker).is_consumed(),
        start.poll(waker).run(later).polled() == Err::<Readiness<T>, NotifyError>(
            NotifyError::AlreadyConsumed,
        ),
{
    lemma_consumed_is_final(start.poll(waker), later);
}

/// A consumed exchange stays consumed.
pub proof fn lemma_consumed_is_final<T>(start: Exchange<T>, events: Seq<Event<T>>)
    requires
        start.wf(),
        start.is_consumed(),
    ensures
        start.run(events).is_consumed(),
        start.run(events).polled() == Err::<Readiness<T>, NotifyError>(NotifyError::AlreadyConsumed),
    decreases events.len(),
{
    if events.len() > 0 {
        lemma_consumed_is_final(start.step(events.first()), events.drop_first());
    }
}

/// No lost wake-up. A poll of an empty exchange is told to wait and leaves its waker
/// pending; the offer that is accepted next hands back exactly that waker, clears it, and
/// leaves the value for the poll that the wake-up leads to.
pub proof fn lemma_no_lost_wakeup<T>(start: Exchange<T>, waker: Waker, value: T)
    requires
        start.wf(),
        start.phase() is Empty,
    ensures
        start.polled() == Ok::<Readiness<T>, NotifyError>(Readiness::Pending),
        start.poll(waker).phase() is Empty,
        start.poll(waker).woken_by_complete() == Some(waker),
        start.poll(waker).complete(value).pending_waker is None,
        start.poll(waker).complete(value).polled() == Ok::<Readiness<T>, NotifyError>(
            Readiness::Ready(value),
        ),
{
}

} // verus!
