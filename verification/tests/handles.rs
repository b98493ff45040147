use notify_future::{Notify, NotifyError, NotifyFuture, Readiness};
use std::sync::atomic::{AtomicUsize, Ordering};
use std::sync::Arc;
use std::task::{Wake, Waker};

struct Counter {
    wakes: AtomicUsize,
}

impl Wake for Counter {
    fn wake(self: Arc<Self>) {
        self.wakes.fetch_add(1, Ordering::SeqCst);
    }
}

fn counter() -> Arc<Counter> {
    Arc::new(Counter { wakes: AtomicUsize::new(0) })
}

fn waker(counter: &Arc<Counter>) -> Waker {
    Waker::from(counter.clone())
}

#[test]
fn dropping_the_waiter_cancels() {
    let (notify, waiter) = Notify::<u32>::new();
    drop(waiter);
    assert!(notify.is_canceled());
}

#[test]
fn pair_is_not_canceled_while_the_waiter_lives() {
    let c = counter();
    let (notify, mut waiter) = Notify::<u32>::new();
    assert!(!notify.is_canceled());
    assert_eq!(waiter.poll(waker(&c)), Ok(Readiness::Pending));
    assert!(!notify.is_canceled());
}

#[test]
fn cancellation_stays_and_late_notify_is_silent() {
    let c = counter();
    let (notify, mut waiter) = Notify::<u32>::new();
    assert_eq!(waiter.poll(waker(&c)), Ok(Readiness::Pending));
    drop(waiter);
    assert!(notify.is_canceled());
    assert!(notify.is_canceled());
    notify.notify(1);
    assert_eq!(c.wakes.load(Ordering::SeqCst), 0);
    assert_eq!(Arc::strong_count(&c), 1);
}

#[test]
fn notify_wakes_the_suspended_waiter() {
    let c = counter();
    let (notify, mut waiter) = Notify::<u32>::new();
    assert_eq!(waiter.poll(waker(&c)), Ok(Readiness::Pending));
    assert_eq!(c.wakes.load(Ordering::SeqCst), 0);
    notify.notify(1);
    assert_eq!(c.wakes.load(Ordering::SeqCst), 1);
    assert_eq!(waiter.poll(waker(&c)), Ok(Readiness::Ready(1)));
}

#[test]
fn notify_before_the_first_poll_is_found_at_once() {
    let c = counter();
    let (notify, mut waiter) = Notify::<u32>::new();
    notify.notify(5);
    assert_eq!(waiter.poll(waker(&c)), Ok(Readiness::Ready(5)));
    assert_eq!(c.wakes.load(Ordering::SeqCst), 0);
}

#[test]
fn resolving_twice_is_an_error() {
    let c = counter();
    let (notify, mut waiter) = Notify::<u32>::new();
    notify.notify(7);
    assert_eq!(waiter.poll(waker(&c)), Ok(Readiness::Ready(7)));
    assert_eq!(waiter.poll(waker(&c)), Err(NotifyError::AlreadyConsumed));
    assert_eq!(waiter.poll(waker(&c)), Err(NotifyError::AlreadyConsumed));
}

#[test]
fn only_the_latest_task_is_woken() {
    let first = counter();
    let second = counter();
    let (notify, mut waiter) = Notify::<u32>::new();
    assert_eq!(waiter.poll(waker(&first)), Ok(Readiness::Pending));
    assert_eq!(waiter.poll(waker(&second)), Ok(Readiness::Pending));
    notify.notify(2);
    assert_eq!(first.wakes.load(Ordering::SeqCst), 0);
    assert_eq!(second.wakes.load(Ordering::SeqCst), 1);
}

#[test]
fn second_set_complete_is_dropped() {
    let c = counter();
    let mut future = NotifyFuture::<u32>::new();
    let producer = future.clone();
    producer.set_complete(1);
    producer.set_complete(2);
    assert_eq!(future.poll(waker(&c)), Ok(Readiness::Ready(1)));
}

#[test]
fn set_complete_wakes_once() {
    let c = counter();
    let mut future = NotifyFuture::<u32>::new();
    let producer = future.clone();
    assert_eq!(future.poll(waker(&c)), Ok(Readiness::Pending));
    producer.set_complete(1);
    producer.set_complete(2);
    assert_eq!(c.wakes.load(Ordering::SeqCst), 1);
    assert_eq!(future.poll(waker(&c)), Ok(Readiness::Ready(1)));
}

#[test]
fn value_goes_to_one_clone_only() {
    let c = counter();
    let mut first = NotifyFuture::<u32>::new();
    let mut second = first.clone();
    first.set_complete(3);
    assert_eq!(second.poll(waker(&c)), Ok(Readiness::Ready(3)));
    assert_eq!(first.poll(waker(&c)), Err(NotifyError::AlreadyConsumed));
    assert_eq!(second.poll(waker(&c)), Err(NotifyError::AlreadyConsumed));
    let mut third = second.clone();
    assert_eq!(third.poll(waker(&c)), Err(NotifyError::AlreadyConsumed));
}

#[test]
fn dropping_a_clone_cancels_nothing() {
    let c = counter();
    let mut future = NotifyFuture::<u32>::new();
    let producer = future.clone();
    drop(future.clone());
    producer.set_complete(4);
    assert_eq!(future.poll(waker(&c)), Ok(Readiness::Ready(4)));
}
