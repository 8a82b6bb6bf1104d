//! What a whole history of a pairing yields. A history is the sequence of
//! the steps that the two handles take on the shared slot, in the order in
//! which they hold the lock.
use vstd::prelude::*;
use std::task::Waker;
use crate::phase::{abandon_step, complete_step, outcome_of, poll_step, Phase, RunError};

verus! {

/// One step on the shared slot.
pub enum Event<Output, P> {
    /// The consumer polls, registering this waiter.
    Poll(Waker),
    /// The worker stores what its run of the closure gave.
    Run(Result<Output, P>),
    /// The worker is discarded unrun.
    Abandon,
}

/// The slot after one step, what the consumer receives in it, and whether
/// the step wrote an outcome into the slot.
pub open spec fn step<Output, P>(p: Phase<Output, P>, e: Event<Output, P>) -> (Phase<Output, P>, Option<Result<Output, RunError<P>>>, bool) {
    match e {
        Event::Poll(w) => (poll_step(p, w).0, poll_step(p, w).1, false),
        Event::Run(res) => (complete_step(p, res).0, None, p is Pending),
        Event::Abandon => (abandon_step(p).0, None, p is Pending),
    }
}

/// The slot after a history.
pub open spec fn end_phase<Output, P>(p: Phase<Output, P>, evs: Seq<Event<Output, P>>) -> Phase<Output, P>
    decreases evs.len(),
{
    if evs.len() == 0 {
        p
    } else {
        end_phase(step(p, evs[0]).0, evs.drop_first())
    }
}

/// The outcomes that the consumer receives over a history, in order.
pub open spec fn deliveries<Output, P>(p: Phase<Output, P>, evs: Seq<Event<Output, P>>) -> Seq<Result<Output, RunError<P>>>
    decreases evs.len(),
{
    if evs.len() == 0 {
        seq![]
    } else {
        let rest = deliveries(step(p, evs[0]).0, evs.drop_first());
        match step(p, evs[0]).1 {
            Some(r) => seq![r] + rest,
            None => rest,
        }
    }
}

/// How many steps of a history write an outcome into the slot.
pub open spec fn writes<Output, P>(p: Phase<Output, P>, evs: Seq<Event<Output, P>>) -> nat
    decreases evs.len(),
{
    if evs.len() == 0 {
        0
    } else {
        (if step(p, evs[0]).2 { 1nat } else { 0nat }) + writes(step(p, evs[0]).0, evs.drop_first())
    }
}

/// The outcome of the first step of the worker in a history, if it has one.
pub open spec fn first_outcome<Output, P>(evs: Seq<Event<Output, P>>) -> Option<Result<Output, RunError<P>>>
    decreases evs.len(),
{
    if evs.len() == 0 {
        None
    } else {
        match evs[0] {
            Event::Poll(_) => first_outcome(evs.drop_first()),
            Event::Run(res) => Some(outcome_of(res)),
            Event::Abandon => Some(Err(RunError::RunnerDropped)),
        }
    }
}

/// Whether a history holds a poll.
pub open spec fn any_poll<Output, P>(evs: Seq<Event<Output, P>>) -> bool
    decreases evs.len(),
{
    evs.len() > 0 && (evs[0] is Poll || any_poll(evs.drop_first()))
}

/// Whether every step of a history is a poll.
pub open spec fn only_polls<Output, P>(evs: Seq<Event<Output, P>>) -> bool {
    forall|i: int| 0 <= i < evs.len() ==> #[trigger] evs[i] is Poll
}

/// The waiter registered last in a history of polls, or `w0` if it is empty.
pub open spec fn last_waiter<Output, P>(w0: Option<Waker>, evs: Seq<Event<Output, P>>) -> Option<Waker> {
    if evs.len() == 0 {
        w0
    } else {
        Some(evs.last()->Poll_0)
    }
}

/// Once the slot holds an outcome, no step writes again, and the consumer
/// receives that outcome at its first poll and nothing after it.
pub proof fn lemma_settled<Output, P>(p: Phase<Output, P>, evs: Seq<Event<Output, P>>)
    requires
        !(p is Pending),
    ensures
        writes(p, evs) == 0,
        deliveries(p, evs) == (match p {
            Phase::Ready(r) => if any_poll(evs) { seq![r] } else { seq![] },
            _ => seq![],
        }),
    decreases evs.len(),
{
    if evs.len() > 0 {
        let n = step(p, evs[0]).0;
        lemma_settled(n, evs.drop_first());
        if let Phase::Ready(r) = p {
            if evs[0] is Poll {
                lemma_settled(Phase::<Output, P>::Delivered, evs.drop_first());
            }
        }
    }
}

/// In every history of a fresh pairing the slot is written at most once, by
/// the first step of the worker, whether it runs the closure or is
/// abandoned; and the consumer receives at most one outcome, which is the
/// outcome of that step.
pub proof fn lemma_single_outcome<Output, P>(w0: Option<Waker>, evs: Seq<Event<Output, P>>)
    ensures
        writes(Phase::Pending(w0), evs) == (if first_outcome(evs) is Some { 1nat } else { 0nat }),
        deliveries(Phase::Pending(w0), evs).len() <= 1,
        deliveries(Phase::Pending(w0), evs).len() == 1 ==> first_outcome(evs) == Some(
            deliveries(Phase::Pending(w0), evs)[0],
        ),
    decreases evs.len(),
{
    if evs.len() > 0 {
        match evs[0] {
            Event::Poll(w) => {
                lemma_single_outcome(Some(w), evs.drop_first());
            },
            Event::Run(res) => {
                lemma_settled(Phase::<Output, P>::Ready(outcome_of(res)), evs.drop_first());
            },
            Event::Abandon => {
                lemma_settled(Phase::<Output, P>::Ready(Err(RunError::RunnerDropped)), evs.drop_first());
            },
        }
    }
}

/// Before the worker's step, polling keeps the slot pending with the waiter
/// registered last, and the consumer receives nothing.
pub proof fn lemma_polls_before_completion<Output, P>(w0: Option<Waker>, polls: Seq<Event<Output, P>>)
    requires
        only_polls(polls),
    ensures
        end_phase(Phase::Pending(w0), polls) == Phase::<Output, P>::Pending(last_waiter(w0, polls)),
        deliveries(Phase::Pending(w0), polls) == Seq::<Result<Output, RunError<P>>>::empty(),
        writes(Phase::Pending(w0), polls) == 0,
    decreases polls.len(),
{
    if polls.len() > 0 {
        let rest = polls.drop_first();
        assert(polls[0] is Poll);
        assert(only_polls(rest)) by {
            assert forall|i: int| 0 <= i < rest.len() implies #[trigger] rest[i] is Poll by {
                assert(rest[i] == polls[i + 1]);
            }
        }
        lemma_polls_before_completion(Some(polls[0]->Poll_0), rest);
        if rest.len() > 0 {
            assert(rest.last() == polls.last());
        }
    }
}

/// A history of polls, then the worker's step `e`, then any steps: the
/// consumer receives nothing before `e`, and after it exactly the outcome of
/// `e`, once, if it polls again.
pub proof fn lemma_outcome_of_first_step<Output, P>(
    w0: Option<Waker>,
    polls: Seq<Event<Output, P>>,
    e: Event<Output, P>,
    after: Seq<Event<Output, P>>,
)
    requires
        only_polls(polls),
        !(e is Poll),
    ensures
        deliveries(Phase::Pending(w0), polls + seq![e] + after) == (if any_poll(after) {
            seq![first_outcome(seq![e]).unwrap()]
        } else {
            seq![]
        }),
        writes(Phase::Pending(w0), polls + seq![e] + after) == 1,
    decreases polls.len(),
{
    let evs = polls + seq![e] + after;
    if polls.len() > 0 {
        let rest = polls.drop_first();
        assert(polls[0] is Poll);
        assert(only_polls(rest)) by {
            assert forall|i: int| 0 <= i < rest.len() implies #[trigger] rest[i] is Poll by {
                assert(rest[i] == polls[i + 1]);
            }
        }
        assert(evs.drop_first() =~= rest + seq![e] + after);
        assert(evs[0] == polls[0]);
        lemma_outcome_of_first_step(Some(polls[0]->Poll_0), rest, e, after);
    } else {
        assert(evs.drop_first() =~= after);
        assert(evs[0] == e);
        let n = step(Phase::<Output, P>::Pending(w0), e).0;
        lemma_settled(n, after);
        assert(seq![e].drop_first() =~= Seq::<Event<Output, P>>::empty());
    }
}

/// A closure that returns `v` normally: the consumer receives `Ok(v)`, once.
pub proof fn lemma_value_delivered<Output, P>(
    w0: Option<Waker>,
    polls: Seq<Event<Output, P>>,
    v: Output,
    after: Seq<Event<Output, P>>,
)
    requires
        only_polls(polls),
        any_poll(after),
    ensures
        deliveries(Phase::Pending(w0), polls + seq![Event::Run(Ok(v))] + after)
            == seq![Ok::<Output, RunError<P>>(v)],
{
    lemma_outcome_of_first_step(w0, polls, Event::Run(Ok(v)), after);
    assert(seq![Event::<Output, P>::Run(Ok(v))].drop_first() =~= Seq::<Event<Output, P>>::empty());
}

/// A closure that panics with payload `e`: the consumer receives
/// `Panicked(e)`, once.
pub proof fn lemma_panic_delivered<Output, P>(
    w0: Option<Waker>,
    polls: Seq<Event<Output, P>>,
    e: P,
    after: Seq<Event<Output, P>>,
)
    requires
        only_polls(polls),
        any_poll(after),
    ensures
        deliveries(Phase::Pending(w0), polls + seq![Event::Run(Err(e))] + after)
            == seq![Err::<Output, RunError<P>>(RunError::Panicked(e))],
{
    lemma_outcome_of_first_step(w0, polls, Event::Run(Err(e)), after);
    assert(seq![Event::<Output, P>::Run(Err(e))].drop_first() =~= Seq::<Event<Output, P>>::empty());
}

/// A worker discarded unrun: the consumer receives `RunnerDropped`, once,
/// whatever follows.
pub proof fn lemma_abandon_delivered<Output, P>(
    w0: Option<Waker>,
    polls: Seq<Event<Output, P>>,
    after: Seq<Event<Output, P>>,
)
    requires
        only_polls(polls),
        any_poll(after),
    ensures
        deliveries(Phase::Pending(w0), polls + seq![Event::Abandon] + after)
            == seq![Err::<Output, RunError<P>>(RunError::RunnerDropped)],
{
    lemma_outcome_of_first_step(w0, polls, Event::Abandon, after);
    assert(seq![Event::<Output, P>::Abandon].drop_first() =~= Seq::<Event<Output, P>>::empty());
}

} // verus!
