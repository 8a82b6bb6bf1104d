//! The shared slot of a pairing as a state machine: a pending slot that holds
//! the latest registered waiter, a completed slot that holds the outcome, and
//! a slot whose outcome has been handed to the consumer.
use vstd::prelude::*;
use std::task::Waker;

verus! {

/// Why a pairing produced no value.
#[derive(Debug)]
pub enum RunError<P> {
    /// The closure panicked; the payload is what the panic carried.
    Panicked(P),
    /// The worker was discarded before it ran the closure.
    RunnerDropped,
}

/// The content of the shared slot.
pub enum Phase<Output, P> {
    /// No outcome yet; the waiter to notify on completion, if one registered.
    Pending(Option<Waker>),
    /// The outcome, written once, not yet handed to the consumer.
    Ready(Result<Output, RunError<P>>),
    /// The outcome has been handed to the consumer.
    Delivered,
}

/// The outcome that the worker stores for what its run of the closure gave:
/// a value, or the payload of a panic.
pub open spec fn outcome_of<Output, P>(res: Result<Output, P>) -> Result<Output, RunError<P>> {
    match res {
        Ok(v) => Ok(v),
        Err(e) => Err(RunError::Panicked(e)),
    }
}

/// A poll by the consumer: the next slot and what the consumer receives.
pub open spec fn poll_step<Output, P>(p: Phase<Output, P>, w: Waker) -> (Phase<Output, P>, Option<Result<Output, RunError<P>>>) {
    match p {
        Phase::Pending(_) => (Phase::Pending(Some(w)), None),
        Phase::Ready(r) => (Phase::Delivered, Some(r)),
        Phase::Delivered => (Phase::Delivered, None),
    }
}

/// The worker stores the outcome of its run: the next slot and the waiter
/// to notify.
pub open spec fn complete_step<Output, P>(p: Phase<Output, P>, res: Result<Output, P>) -> (Phase<Output, P>, Option<Waker>) {
    match p {
        Phase::Pending(w) => (Phase::Ready(outcome_of(res)), w),
        _ => (p, None),
    }
}

/// The worker is discarded unrun: the next slot and the waiter to notify.
pub open spec fn abandon_step<Output, P>(p: Phase<Output, P>) -> (Phase<Output, P>, Option<Waker>) {
    match p {
        Phase::Pending(w) => (Phase::Ready(Err(RunError::RunnerDropped)), w),
        _ => (p, None),
    }
}

impl<Output, P> Phase<Output, P> {
    /// The slot of a fresh pairing: pending, with no waiter.
    pub fn new() -> (r: Self)
        ensures
            r == Phase::<Output, P>::Pending(None),
    {
        Phase::Pending(None)
    }

    /// A poll: takes the outcome if there is one, else registers `w` in
    /// place of any earlier waiter.
    pub fn poll(self, w: Waker) -> (r: (Self, Option<Result<Output, RunError<P>>>))
        ensures
            r == poll_step(self, w),
    {
        match self {
            Phase::Pending(_) => (Phase::Pending(Some(w)), None),
            Phase::Ready(r) => (Phase::Delivered, Some(r)),
            Phase::Delivered => (Phase::Delivered, None),
        }
    }

    /// Stores the outcome of a run if no outcome is stored yet.
    pub fn complete(self, res: Result<Output, P>) -> (r: (Self, Option<Waker>))
        ensures
            r == complete_step(self, res),
    {
        match self {
            Phase::Pending(w) => {
                let outcome = match res {
                    Ok(v) => Ok(v),
                    Err(e) => Err(RunError::Panicked(e)),
                };
                (Phase::Ready(outcome), w)
            },
            other => (other, None),
        }
    }

    /// Stores the abandonment outcome if no outcome is stored yet.
    pub fn abandon(self) -> (r: (Self, Option<Waker>))
        ensures
            r == abandon_step(self),
    {
        match self {
            Phase::Pending(w) => (Phase::Ready(Err(RunError::RunnerDropped)), w),
            other => (other, None),
        }
    }
}

} // verus!
