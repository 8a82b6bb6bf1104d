//! The two handles of a pairing and the constructor that makes them. Both
//! handles share one slot behind a lock; every change to the slot is one
//! step of the state machine in `phase`, made while the lock is held.
use vstd::prelude::*;
use vstd::rwlock::RwLock;
use std::sync::Arc;
use std::task::Waker;
use crate::phase::{Phase, RunError};

verus! {

/// What the lock admits in the slot: a value in it is one that `admits`
/// accepts. Every other slot is admitted.
pub open spec fn slot_inv<Output, P>(admits: spec_fn(Output) -> bool) -> spec_fn(Phase<Output, P>) -> bool {
    |p: Phase<Output, P>| p matches Phase::Ready(Ok(v)) ==> admits(v)
}

/// The slot that both handles of a pairing share.
pub type Slot<Output, P> = Arc<RwLock<Phase<Output, P>, spec_fn(Phase<Output, P>) -> bool>>;

/// The consumer's handle: polled until it yields the outcome, once.
#[verifier::reject_recursive_types(Output)]
#[verifier::reject_recursive_types(P)]
pub struct ClosureFuture<Output, P> {
    state: Slot<Output, P>,
    delivered: bool,
}

/// The worker's handle: holds the closure until it is run or abandoned.
#[verifier::reject_recursive_types(Output)]
#[verifier::reject_recursive_types(P)]
#[verifier::reject_recursive_types(F)]
pub struct ClosureFutureWorker<Output, P, F: FnOnce() -> Output> {
    state: Slot<Output, P>,
    f: Option<F>,
}

impl<Output, P> ClosureFuture<Output, P> {
    /// The lock admits every slot but those that hold a value outside
    /// `admits`.
    pub closed spec fn wf(&self) -> bool {
        self.state.pred() == slot_inv::<Output, P>(self.admits())
    }

    /// The lock that holds the shared slot.
    pub closed spec fn slot(&self) -> RwLock<Phase<Output, P>, spec_fn(Phase<Output, P>) -> bool> {
        *self.state
    }

    /// The values that this future can yield.
    pub closed spec fn admits(&self) -> spec_fn(Output) -> bool {
        |v: Output| (self.state.pred())(Phase::Ready(Ok(v)))
    }

    /// Whether this future has already yielded its outcome.
    pub closed spec fn is_delivered(&self) -> bool {
        self.delivered
    }

    /// Whether this future has already yielded its outcome.
    pub fn delivered(&self) -> (r: bool)
        ensures
            r == self.is_delivered(),
    {
        self.delivered
    }

    /// One poll: the outcome if the worker has stored one, else `None`
    /// after `waker` has replaced any waiter registered before. Must not be
    /// called again once it has returned an outcome.
    pub fn poll(&mut self, waker: Waker) -> (r: Option<Result<Output, RunError<P>>>)
        requires
            old(self).wf(),
            !old(self).is_delivered(),
        ensures
            final(self).wf(),
            final(self).slot() == old(self).slot(),
            final(self).admits() == old(self).admits(),
            final(self).is_delivered() == r.is_some(),
            r matches Some(Ok(v)) ==> (old(self).admits())(v),
    {
        let (current, handle) = self.state.acquire_write();
        let (next, r) = current.poll(waker);
        handle.release_write(next);
        self.delivered = r.is_some();
        r
    }
}

impl<Output, P, F: FnOnce() -> Output> ClosureFutureWorker<Output, P, F> {
    /// The lock admits every slot but those that hold a value outside
    /// `admits`.
    pub closed spec fn wf(&self) -> bool {
        self.state.pred() == slot_inv::<Output, P>(self.admits())
    }

    /// The lock that holds the shared slot.
    pub closed spec fn slot(&self) -> RwLock<Phase<Output, P>, spec_fn(Phase<Output, P>) -> bool> {
        *self.state
    }

    /// The values that the future of this pairing can yield.
    pub closed spec fn admits(&self) -> spec_fn(Output) -> bool {
        |v: Output| (self.state.pred())(Phase::Ready(Ok(v)))
    }

    /// The closure, while it has been neither run nor abandoned.
    pub closed spec fn closure(&self) -> Option<F> {
        self.f
    }

    /// Whether the closure is still held, neither run nor abandoned.
    pub fn is_unrun(&self) -> (r: bool)
        ensures
            r == self.closure().is_some(),
    {
        self.f.is_some()
    }

    /// Runs the closure through `guard`, which calls it and reports a normal
    /// return as `Ok` with the closure's value and a panic as `Err` with its
    /// payload. The outcome is stored unless the slot already holds one, and
    /// the waiter registered at that moment, if any, is woken.
    pub fn run_with<G: FnOnce(F) -> Result<Output, P>>(&mut self, guard: G)
        requires
            old(self).wf(),
            old(self).closure() is Some,
            call_requires(guard, (old(self).closure()->Some_0,)),
            forall|res: Result<Output, P>|
                #[trigger] call_ensures(guard, (old(self).closure()->Some_0,), res) ==> (res matches Ok(
                    v,
                ) ==> (old(self).admits())(v)),
        ensures
            final(self).wf(),
            final(self).slot() == old(self).slot(),
            final(self).admits() == old(self).admits(),
            final(self).closure() is None,
    {
        let f = self.f.take().unwrap();
        let res = guard(f);
        let (current, handle) = self.state.acquire_write();
        let (next, waiter) = current.complete(res);
        handle.release_write(next);
        if let Some(w) = waiter {
            w.wake();
        }
    }

    /// Discards the closure unrun. If the slot holds no outcome yet it
    /// receives `RunnerDropped`, and the registered waiter, if any, is woken,
    /// so the future never waits forever. Does nothing once the closure has
    /// been run or abandoned.
    pub fn abandon(&mut self)
        requires
            old(self).wf(),
        ensures
            final(self).wf(),
            final(self).slot() == old(self).slot(),
            final(self).admits() == old(self).admits(),
            final(self).closure() is None,
    {
        if self.f.is_some() {
            self.f = None;
            let (current, handle) = self.state.acquire_write();
            let (next, waiter) = current.abandon();
            handle.release_write(next);
            if let Some(w) = waiter {
                w.wake();
            }
        }
    }
}

/// Makes a pairing for `f`: a future that yields the outcome of `f`, and a
/// worker that holds `f` until it is run. Both share one fresh, pending slot,
/// and the values that the future can yield are those that `f` can return.
pub fn wrap_as_future<Output, P, F: FnOnce() -> Output>(f: F) -> (r: (ClosureFuture<Output, P>, ClosureFutureWorker<Output, P, F>))
    ensures
        r.0.wf(),
        r.1.wf(),
        r.0.slot() == r.1.slot(),
        r.0.admits() == r.1.admits(),
        forall|v: Output| #[trigger] (r.0.admits())(v) <==> call_ensures(f, (), v),
        !r.0.is_delivered(),
        r.1.closure() == Some(f),
{
    let ghost admits = |v: Output| call_ensures(f, (), v);
    let state = Arc::new(RwLock::new(Phase::new(), Ghost(slot_inv::<Output, P>(admits))));
    let shared = state.clone();
    let fut = ClosureFuture { state: shared, delivered: false };
    let worker = ClosureFutureWorker { state, f: Some(f) };
    assert(fut.admits() =~= admits);
    assert(worker.admits() =~= admits);
    (fut, worker)
}

} // verus!
