use std::future::Future;
use std::sync::atomic::{AtomicUsize, Ordering};
use std::sync::Arc;
use std::time::{Duration, Instant};

use async_dropper::no_default_bound;
use async_dropper::{AsyncDropError, AsyncDropper, DropOutcome};

/// A value whose drop work sleeps for `work`, then bumps a shared counter.
#[derive(Default)]
struct TestDropper {
    counter: Option<Arc<AtomicUsize>>,
    value: usize,
    work: Duration,
}

impl TestDropper {
    fn new(counter: &Arc<AtomicUsize>, work: Option<Duration>) -> Self {
        TestDropper {
            counter: Some(counter.clone()),
            value: 0,
            work: work.unwrap_or_else(|| Duration::from_millis(100)),
        }
    }

    fn drop_work(&mut self) -> impl Future<Output = Result<(), AsyncDropError>> + '_ {
        async move {
            tokio::time::sleep(self.work).await;
            self.value += 1;
            if let Some(c) = self.counter.take() {
                c.fetch_add(1, Ordering::AcqRel);
            }
            Ok(())
        }
    }
}

/// Runs the drop work of a handed-out value on a runtime, raced against its
/// deadline when there is one, and classifies how it ended.
fn run_drop(job: (TestDropper, Option<Duration>)) -> DropOutcome {
    let (mut value, deadline) = job;
    let rt = tokio::runtime::Builder::new_multi_thread()
        .enable_all()
        .build()
        .unwrap();
    let race = rt.block_on(async {
        match deadline {
            Some(d) => tokio::time::timeout(d, value.drop_work()).await.ok(),
            None => Some(value.drop_work().await),
        }
    });
    DropOutcome::from_race(race)
}

#[test]
fn test_dropper_waiting_for_drop() {
    let counter = Arc::new(AtomicUsize::default());
    let mut instance = AsyncDropper::new(TestDropper::new(&counter, None));
    assert_eq!(counter.load(Ordering::Acquire), 0);
    let job = instance.take_for_drop().expect("a fresh guard hands its value out");
    assert!(job.1.is_none());
    let outcome = run_drop(job);
    assert!(outcome.is_success());
    assert_eq!(counter.load(Ordering::Acquire), 1);
}

#[test]
fn test_dropper_timeout() {
    let counter = Arc::new(AtomicUsize::default());
    let inner = TestDropper::new(&counter, Some(Duration::from_secs(100)));
    let mut instance = AsyncDropper::with_timeout(Duration::from_nanos(1), inner);
    assert_eq!(counter.load(Ordering::Acquire), 0);
    let start = Instant::now();
    let job = instance.take_for_drop().expect("a fresh guard hands its value out");
    assert_eq!(job.1, Some(Duration::from_nanos(1)));
    let outcome = run_drop(job);
    assert!(matches!(outcome, DropOutcome::Timeout));
    assert!(start.elapsed() < Duration::from_secs(10));
    assert_eq!(counter.load(Ordering::Acquire), 0);
}

#[test]
fn test_derefs() {
    let counter = Arc::new(AtomicUsize::default());
    let mut instance = AsyncDropper::new(TestDropper::new(&counter, None));
    {
        let inn = instance.inner();
        assert_eq!(inn.value, 0);
    }
    {
        let inn = instance.inner_mut();
        inn.value += 1;
        assert_eq!(inn.value, 1);
    }
    {
        let inn = instance.inner_mut();
        inn.value += 1;
        assert_eq!(inn.value, 2);
    }
    assert_eq!(instance.inner().value, 2);
}

#[test]
fn mutable_access_then_one_teardown_drops_once() {
    let counter = Arc::new(AtomicUsize::default());
    let mut instance = AsyncDropper::new(TestDropper::new(&counter, Some(Duration::from_millis(1))));
    instance.inner_mut().value += 1;
    instance.inner_mut().value += 1;
    let job = instance.take_for_drop().expect("a fresh guard hands its value out");
    assert_eq!(job.0.value, 2);
    run_drop(job);
    assert!(instance.take_for_drop().is_none());
    assert!(instance.take_for_drop().is_none());
    assert_eq!(counter.load(Ordering::Acquire), 1);
}

#[test]
fn teardown_leaves_a_dropped_placeholder() {
    let counter = Arc::new(AtomicUsize::default());
    let mut instance =
        AsyncDropper::with_timeout(Duration::from_secs(5), TestDropper::new(&counter, None));
    assert!(!instance.dropped());
    assert_eq!(instance.timeout(), Some(Duration::from_secs(5)));
    let (value, deadline) = instance.take_for_drop().unwrap();
    assert_eq!(value.value, 0);
    assert!(value.counter.is_some());
    assert_eq!(deadline, Some(Duration::from_secs(5)));
    assert!(instance.dropped());
    assert_eq!(instance.timeout(), None);
    assert!(instance.inner().counter.is_none());
    assert!(instance.take_for_drop().is_none());
}

#[test]
fn tokio_works() {
    let counter = Arc::new(AtomicUsize::default());
    let start = Instant::now();
    let mut wrapped = no_default_bound::AsyncDropper::new(TestDropper::new(
        &counter,
        Some(Duration::from_secs(1)),
    ));
    let job = wrapped.take_for_drop().expect("a fresh guard hands its value out");
    let outcome = run_drop(job);
    assert!(start.elapsed() > Duration::from_millis(500));
    assert!(outcome.is_success());
    assert_eq!(counter.load(Ordering::SeqCst), 1);
    assert!(wrapped.take_for_drop().is_none());
}

#[test]
fn tokio_works_with_timeout() {
    let counter = Arc::new(AtomicUsize::default());
    let start = Instant::now();
    let mut wrapped = no_default_bound::AsyncDropper::with_timeout(
        Duration::from_millis(500),
        TestDropper::new(&counter, Some(Duration::from_secs(1))),
    );
    let job = wrapped.take_for_drop().expect("a fresh guard hands its value out");
    assert_eq!(job.1, Some(Duration::from_millis(500)));
    let outcome = run_drop(job);
    assert!(start.elapsed() > Duration::from_millis(500));
    assert!(start.elapsed() < Duration::from_millis(1000));
    assert!(matches!(outcome, DropOutcome::Timeout));
    assert_eq!(counter.load(Ordering::SeqCst), 0);
}

#[test]
fn slot_guard_accessors() {
    let counter = Arc::new(AtomicUsize::default());
    let mut wrapped = no_default_bound::AsyncDropper::new(TestDropper::new(&counter, None));
    assert!(wrapped.has_inner());
    assert!(!wrapped.dropped());
    assert_eq!(wrapped.timeout(), None);
    wrapped.inner_mut().value = 7;
    assert_eq!(wrapped.inner().value, 7);
    let (value, deadline) = wrapped.take_for_drop().unwrap();
    assert_eq!(value.value, 7);
    assert_eq!(deadline, None);
    assert!(!wrapped.has_inner());
    assert!(wrapped.dropped());
    assert!(wrapped.take_for_drop().is_none());
}

#[test]
fn empty_slot_guard_hands_nothing_out() {
    let mut wrapped: no_default_bound::AsyncDropper<TestDropper> = Default::default();
    assert!(!wrapped.has_inner());
    assert!(!wrapped.dropped());
    assert!(wrapped.take_for_drop().is_none());
    assert!(wrapped.dropped());
    assert!(wrapped.take_for_drop().is_none());
}
