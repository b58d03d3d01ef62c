use std::cell::RefCell;
use std::sync::Arc;
use std::sync::atomic::AtomicUsize;
use std::sync::atomic::Ordering;

use futures::Executor;
use futures::Future;
use futures::PollResult;
use futures::Wake;
use futures::failed;
use futures::future::discard::new;

/// A wake handle that counts how often it has been invoked.
struct CountingWake {
    count: Arc<AtomicUsize>,
}

impl Wake for CountingWake {
    fn wake(&self) {
        self.count.fetch_add(1, Ordering::SeqCst);
    }
}

/// A deterministic executor: submitted work is queued, not run, until the
/// test drains the queue.
struct QueueExecutor {
    queue: RefCell<Vec<Box<dyn FnOnce() + Send + 'static>>>,
}

impl QueueExecutor {
    fn empty() -> QueueExecutor {
        QueueExecutor { queue: RefCell::new(Vec::new()) }
    }

    fn pending(&self) -> usize {
        self.queue.borrow().len()
    }

    fn run_all(&self) {
        loop {
            let next = self.queue.borrow_mut().pop();
            match next {
                Some(work) => work(),
                None => break,
            }
        }
    }
}

impl Executor for QueueExecutor {
    fn execute<W: FnOnce() + Send + 'static>(&self, work: W) {
        self.queue.borrow_mut().push(Box::new(work));
    }
}

/// An inner future that resolves to `Ready(v)` on its first poll and reports
/// the fault on any later poll.
struct Resolved {
    value: Option<u64>,
}

impl Future for Resolved {
    type Item = u64;
    type Error = ();

    // The two transition relations are the verification-time model of the
    // trait; they are never called at run time.
    fn poll_rel(_pre: Resolved, _post: Resolved, _r: PollResult<u64, ()>) -> bool {
        true
    }

    fn schedule_rel(_pre: Resolved, _post: Resolved) -> bool {
        true
    }

    fn poll(&mut self) -> PollResult<u64, ()> {
        match self.value.take() {
            Some(v) => PollResult::Ready(v),
            None => PollResult::PolledAfterComplete,
        }
    }

    fn schedule<W: Wake + Send + 'static, X: Executor>(&mut self, wake: W, exec: &X) {
        exec.execute(move || wake.wake());
    }

    fn tailcall(&mut self) -> Option<Box<Resolved>> {
        None
    }
}

/// An inner future that is `Pending` on its first poll and `Ready(v)` on its
/// second.
struct ReadyOnSecondPoll {
    polled_once: bool,
    value: Option<u64>,
}

impl Future for ReadyOnSecondPoll {
    type Item = u64;
    type Error = ();

    fn poll_rel(_pre: ReadyOnSecondPoll, _post: ReadyOnSecondPoll, _r: PollResult<u64, ()>) -> bool {
        true
    }

    fn schedule_rel(_pre: ReadyOnSecondPoll, _post: ReadyOnSecondPoll) -> bool {
        true
    }

    fn poll(&mut self) -> PollResult<u64, ()> {
        if !self.polled_once {
            self.polled_once = true;
            PollResult::Pending
        } else {
            match self.value.take() {
                Some(v) => PollResult::Ready(v),
                None => PollResult::PolledAfterComplete,
            }
        }
    }

    fn schedule<W: Wake + Send + 'static, X: Executor>(&mut self, wake: W, exec: &X) {
        exec.execute(move || wake.wake());
    }

    fn tailcall(&mut self) -> Option<Box<ReadyOnSecondPoll>> {
        None
    }
}

#[test]
fn failed_first_poll_delivers_the_error() {
    let mut f = failed::<u32, &str>("boom");
    assert_eq!(f.poll(), PollResult::Failed("boom"));
}

#[test]
fn failed_second_poll_reports_the_fault() {
    let mut f = failed::<u32, &str>("boom");
    assert_eq!(f.poll(), PollResult::Failed("boom"));
    assert_eq!(f.poll(), PollResult::PolledAfterComplete);
}

#[test]
fn failed_tailcall_never_redirects() {
    let mut f = failed::<u32, u32>(1);
    assert!(f.tailcall().is_none());
    assert_eq!(f.poll(), PollResult::Failed(1));
    assert!(f.tailcall().is_none());
}

#[test]
fn failed_schedule_wakes_exactly_once_and_not_reentrantly() {
    let count = Arc::new(AtomicUsize::new(0));
    let exec = QueueExecutor::empty();
    let mut f = failed::<u32, u32>(9);
    f.schedule(CountingWake { count: Arc::clone(&count) }, &exec);
    // Not re-entrant: the wake is handed to the executor, not invoked on the
    // calling stack.
    assert_eq!(count.load(Ordering::SeqCst), 0);
    assert_eq!(exec.pending(), 1);
    exec.run_all();
    assert_eq!(count.load(Ordering::SeqCst), 1);
    // Exactly once: nothing further was submitted.
    exec.run_all();
    assert_eq!(count.load(Ordering::SeqCst), 1);
}

#[test]
fn failed_schedule_wakes_after_poll_too() {
    let count = Arc::new(AtomicUsize::new(0));
    let exec = QueueExecutor::empty();
    let mut f = failed::<u32, u32>(9);
    assert_eq!(f.poll(), PollResult::Failed(9));
    f.schedule(CountingWake { count: Arc::clone(&count) }, &exec);
    assert_eq!(count.load(Ordering::SeqCst), 0);
    exec.run_all();
    assert_eq!(count.load(Ordering::SeqCst), 1);
}

#[test]
fn discard_erases_a_ready_value_to_unit() {
    let inner = Resolved { value: Some(42) };
    let mut d = new(inner);
    assert_eq!(d.poll(), PollResult::Ready(()));
}

#[test]
fn discard_erases_a_failure_to_unit() {
    let inner = failed::<u32, &str>("x");
    let mut d = new(inner);
    assert_eq!(d.poll(), PollResult::Failed(()));
}

#[test]
fn discard_passes_pending_through() {
    let inner = ReadyOnSecondPoll { polled_once: false, value: Some(1) };
    let mut d = new(inner);
    assert_eq!(d.poll(), PollResult::Pending);
    assert_eq!(d.poll(), PollResult::Ready(()));
}

#[test]
fn discard_reports_the_fault_distinctly() {
    let inner = Resolved { value: Some(7) };
    let mut d = new(inner);
    assert_eq!(d.poll(), PollResult::Ready(()));
    assert_eq!(d.poll(), PollResult::PolledAfterComplete);
}

#[test]
fn discard_forwards_schedule_to_the_inner_future() {
    let count = Arc::new(AtomicUsize::new(0));
    let exec = QueueExecutor::empty();
    let mut d = new(failed::<u32, u32>(5));
    d.schedule(CountingWake { count: Arc::clone(&count) }, &exec);
    assert_eq!(count.load(Ordering::SeqCst), 0);
    assert_eq!(exec.pending(), 1);
    exec.run_all();
    assert_eq!(count.load(Ordering::SeqCst), 1);
}

#[test]
fn discard_tailcall_never_redirects() {
    let mut d = new(failed::<u32, u32>(5));
    assert!(d.tailcall().is_none());
}

#[test]
fn a_wake_handle_tolerates_repeated_invocation() {
    let count = Arc::new(AtomicUsize::new(0));
    let wake = CountingWake { count: Arc::clone(&count) };
    wake.wake();
    wake.wake();
    wake.wake();
    assert_eq!(count.load(Ordering::SeqCst), 3);
}
