use closure_future::{wrap_as_future, ClosureFuture, ClosureFutureWorker, Phase, RunError};
use std::any::Any;
use std::future::Future;
use std::pin::Pin;
use std::sync::atomic::{AtomicUsize, Ordering};
use std::sync::{Arc, Mutex};
use std::task::{Context, Poll, Wake, Waker};
use std::time::{Duration, Instant};

type Payload = Mutex<Box<dyn Any + Send + 'static>>;

struct Count(AtomicUsize);

impl Wake for Count {
    fn wake(self: Arc<Self>) {
        self.0.fetch_add(1, Ordering::SeqCst);
    }
}

fn counting_waker() -> (Arc<Count>, Waker) {
    let count = Arc::new(Count(AtomicUsize::new(0)));
    (count.clone(), Waker::from(count))
}

fn wakes(count: &Arc<Count>) -> usize {
    count.0.load(Ordering::SeqCst)
}

struct Awaiting<O>(ClosureFuture<O, Payload>);

impl<O> Future for Awaiting<O> {
    type Output = Result<O, RunError<Payload>>;

    fn poll(self: Pin<&mut Self>, cx: &mut Context<'_>) -> Poll<Self::Output> {
        let inner = &mut self.get_mut().0;
        assert!(!inner.delivered());
        match inner.poll(cx.waker().clone()) {
            Some(r) => Poll::Ready(r),
            None => Poll::Pending,
        }
    }
}

fn run_plain<O, F: FnOnce() -> O>(worker: &mut ClosureFutureWorker<O, Payload, F>) {
    worker.run_with(|f: F| -> Result<O, Payload> { Ok(f()) });
}

fn run_panicking<O, F: FnOnce() -> O>(worker: &mut ClosureFutureWorker<O, Payload, F>, msg: &'static str) {
    worker.run_with(move |_f: F| -> Result<O, Payload> { Err(Mutex::new(Box::new(msg))) });
}

#[test]
fn value_delivered_after_run() {
    let (fut, mut worker) = wrap_as_future::<u32, Payload, _>(|| 42u32);
    run_plain(&mut worker);
    let r = smol::block_on(Awaiting(fut));
    assert!(matches!(r, Ok(42)));
}

#[test]
fn panic_payload_delivered() {
    let (fut, mut worker) = wrap_as_future::<u32, Payload, _>(|| 1u32);
    run_panicking(&mut worker, "boom");
    match smol::block_on(Awaiting(fut)) {
        Err(RunError::Panicked(p)) => assert_eq!(p.lock().unwrap().downcast_ref::<&str>(), Some(&"boom")),
        other => panic!("unexpected outcome {:?}", other.is_ok()),
    }
}

#[test]
fn abandoned_worker_resolves() {
    let (fut, mut worker) = wrap_as_future::<u32, Payload, _>(|| 7u32);
    worker.abandon();
    assert!(!worker.is_unrun());
    let r = smol::block_on(Awaiting(fut));
    assert!(matches!(r, Err(RunError::RunnerDropped)));
}

#[test]
fn sixteen_pairings_resolve_in_order() {
    let mut futures = Vec::new();
    for i in 0..16u64 {
        let (fut, mut worker) = wrap_as_future::<u64, Payload, _>(move || {
            let start = Instant::now();
            while start.elapsed() < Duration::from_millis((i * 1337 % 17) * 3) {}
            i
        });
        rayon::spawn(move || run_plain(&mut worker));
        futures.push(fut);
    }
    for (i, fut) in futures.into_iter().enumerate() {
        let r = smol::block_on(Awaiting(fut));
        assert!(matches!(r, Ok(v) if v == i as u64));
    }
}

#[test]
fn poll_before_completion_is_pending() {
    let (mut fut, mut worker) = wrap_as_future::<u32, Payload, _>(|| 5u32);
    let (first, w1) = counting_waker();
    let (second, w2) = counting_waker();
    assert!(fut.poll(w1).is_none());
    assert!(!fut.delivered());
    assert!(fut.poll(w2).is_none());
    assert!(!fut.delivered());
    run_plain(&mut worker);
    assert_eq!(wakes(&first), 0);
    assert_eq!(wakes(&second), 1);
    let (_, w3) = counting_waker();
    assert!(matches!(fut.poll(w3), Some(Ok(5))));
    assert!(fut.delivered());
}

#[test]
fn abandon_after_run_keeps_value() {
    let (mut fut, mut worker) = wrap_as_future::<u32, Payload, _>(|| 9u32);
    assert!(worker.is_unrun());
    run_plain(&mut worker);
    assert!(!worker.is_unrun());
    worker.abandon();
    let (_, w) = counting_waker();
    assert!(matches!(fut.poll(w), Some(Ok(9))));
}

#[test]
fn abandon_wakes_registered_waiter() {
    let (mut fut, mut worker) = wrap_as_future::<u32, Payload, _>(|| 3u32);
    let (count, w) = counting_waker();
    assert!(fut.poll(w).is_none());
    worker.abandon();
    worker.abandon();
    assert_eq!(wakes(&count), 1);
    let (_, w2) = counting_waker();
    assert!(matches!(fut.poll(w2), Some(Err(RunError::RunnerDropped))));
}

#[test]
fn run_racing_poll_delivers_once() {
    for round in 0..100u32 {
        let (mut fut, mut worker) = wrap_as_future::<u32, Payload, _>(move || round);
        let (_, got) = rayon::join(
            move || run_plain(&mut worker),
            move || {
                let mut seen = 0u32;
                let mut value = None;
                while value.is_none() {
                    let (_, w) = counting_waker();
                    if let Some(r) = fut.poll(w) {
                        seen += 1;
                        value = Some(r);
                    }
                }
                (seen, value)
            },
        );
        assert_eq!(got.0, 1);
        assert!(matches!(got.1, Some(Ok(v)) if v == round));
    }
}

#[test]
fn phase_steps() {
    let (count, w) = counting_waker();
    let p: Phase<u32, Payload> = Phase::new();
    assert!(matches!(p, Phase::Pending(None)));
    let (p, r) = p.poll(w);
    assert!(r.is_none());
    assert!(matches!(p, Phase::Pending(Some(_))));
    let (p, waiter) = p.complete(Ok(11));
    assert!(waiter.is_some());
    assert!(matches!(p, Phase::Ready(Ok(11))));
    let (p, waiter) = p.abandon();
    assert!(waiter.is_none());
    let (p, waiter) = p.complete(Ok(12));
    assert!(waiter.is_none());
    let (_, w2) = counting_waker();
    let (p, r) = p.poll(w2);
    assert!(matches!(r, Some(Ok(11))));
    assert!(matches!(p, Phase::Delivered));
    let (_, w3) = counting_waker();
    let (p, r) = p.poll(w3);
    assert!(r.is_none());
    assert!(matches!(p, Phase::Delivered));
    assert_eq!(wakes(&count), 0);
}

#[test]
fn phase_records_panic_and_abandon() {
    let p: Phase<u32, Payload> = Phase::new();
    let (p, waiter) = p.complete(Err(Mutex::new(Box::new("boom"))));
    assert!(waiter.is_none());
    match p {
        Phase::Ready(Err(RunError::Panicked(e))) => assert_eq!(e.lock().unwrap().downcast_ref::<&str>(), Some(&"boom")),
        _ => panic!("expected a panic outcome"),
    }
    let q: Phase<u32, Payload> = Phase::new();
    let (q, _) = q.abandon();
    assert!(matches!(q, Phase::Ready(Err(RunError::RunnerDropped))));
    let (q, _) = q.complete(Ok(1));
    assert!(matches!(q, Phase::Ready(Err(RunError::RunnerDropped))));
}
