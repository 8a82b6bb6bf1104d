//! A closure run by one party and awaited by another: a pairing of a
//! consumer-side future and a worker-side handle around one shared slot.
pub mod waker;
pub mod phase;
pub mod pairing;
pub mod laws;

pub use phase::{Phase, RunError};
pub use pairing::{wrap_as_future, ClosureFuture, ClosureFutureWorker};
