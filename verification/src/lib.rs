//! A one-shot, cancel-aware handoff of a single value from a producer to a consumer.
//!
//! [`Notify`] deposits the value and [`NotifyWaiter`] polls for it; dropping the waiter
//! before the value arrived tells the producer that nobody is listening any more.
//! [`NotifyFuture`] is one cloneable handle for both sides, without the cancel signal.
//!
//! The handles share one [`NotifyFutureState`] behind a mutex. The state is a small machine
//! whose transitions are specified over [`Exchange`], its mathematical model; what holds of
//! every run of the machine is proved in [`laws`].

pub mod exchange;
pub mod sync;
pub mod state;
pub mod laws;
pub mod notify;

pub use exchange::{Exchange, NotifyError, Phase, Readiness};
pub use notify::{Notify, NotifyFuture, NotifyWaiter};
pub use state::NotifyFutureState;
