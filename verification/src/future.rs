use vstd::prelude::*;

use crate::poll::PollResult;

pub mod discard;

verus! {

/// A shared notification capability.
///
/// Invoking `wake` signals "progress may now be possible: poll me again".
/// A correct handle tolerates being invoked any number of times, from any
/// thread, and after the future that registered it has completed or been
/// dropped; every invocation must then be a safe no-op.
pub trait Wake {
    /// Signals that the future which registered this handle should be polled
    /// again.  No arguments, no result, callable any number of times.
    fn wake(&self);
}

/// A service that runs submitted work asynchronously.
///
/// This core only consumes the capability: `execute` accepts a zero-argument
/// unit of deferred work, fire and forget, with no result and no ordering
/// guarantee relative to other submitted work.
pub trait Executor {
    /// Schedules `work` to be run asynchronously, without blocking the
    /// submitter.  The submitted work must be callable as it stands.
    fn execute<W: FnOnce() + Send + 'static>(&self, work: W)
        requires
            call_requires(work, ()),
    ;
}

/// A handle to a deferred computation, polled for its current outcome.
///
/// This is the sole interface combinators and drivers consume.  A caller
/// polls the future; when the outcome is `Pending` it registers a [`Wake`]
/// through `schedule` and polls again once the wake fires.  No method blocks
/// the calling thread; "waiting" is always expressed as `Pending` plus a
/// registered wake.  Exactly one logical poller at a time is assumed per
/// future: the owning driver, not the future, prevents concurrent polling.
///
/// Each implementation gives its behaviour to the verifier through two
/// transition relations, `poll_rel` and `schedule_rel`; the executable
/// methods promise to act within them.
pub trait Future: Sized {
    /// The type of the value a successfully finished computation yields.
    type Item;

    /// The type of the error a failed computation yields.
    type Error;

    /// The transition relation of one poll: one call may take the future
    /// from state `pre` to state `post` while returning the outcome `r`
    /// only when this relation admits it.
    spec fn poll_rel(pre: Self, post: Self, r: PollResult<Self::Item, Self::Error>) -> bool;

    /// The transition relation of one wake registration: what `schedule`
    /// may do to the future's own state.
    spec fn schedule_rel(pre: Self, post: Self) -> bool;

    /// One non-blocking inquiry into the current state.  Returns `Pending`
    /// while no outcome is available, delivers `Ready` or `Failed` exactly
    /// once, and reports the defined fault rather than stale data when it is
    /// called again after a terminal outcome.
    fn poll(&mut self) -> (r: PollResult<Self::Item, Self::Error>)
        ensures
            Self::poll_rel(*old(self), *final(self), r),
    ;

    /// Registers interest in being notified of readiness: if the future can
    /// ever make progress, `wake.wake()` is invoked at least once after this
    /// call, possibly from another thread via `exec`.  Safe to call more
    /// than once with different wake handles.
    fn schedule<W: Wake + Send + 'static, X: Executor>(&mut self, wake: W, exec: &X)
        ensures
            Self::schedule_rel(*old(self), *final(self)),
    ;

    /// An optional redirection hook: a future may hand an executing driver
    /// another future to poll in its place, flattening deep chains of
    /// combinators.  `None` means "no redirection; poll me directly".
    fn tailcall(&mut self) -> (r: Option<Box<Self>>);
}

} // verus!
