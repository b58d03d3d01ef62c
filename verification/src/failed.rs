use vstd::prelude::*;

use core::marker::PhantomData;

use crate::future::Executor;
use crate::future::Future;
use crate::future::Wake;
use crate::poll::PollResult;

verus! {

/// A leaf future representing a finished but erroneous computation.
///
/// Created by the [`failed`] function.  It holds a phantom marker recording
/// the success type `T` purely for interface typing, and a single-use slot
/// holding the failure value: the slot is populated on creation and consumed
/// by the first poll, which delivers the value as a `Failed` outcome; every
/// later poll finds the slot empty and reports `PolledAfterComplete` instead
/// of re-delivering the value or pretending to be pending.
pub struct Failed<T, E> {
    _t: PhantomData<T>,
    e: Option<E>,
}

impl<T, E> Failed<T, E> {
    /// The single-use slot holding the failure value: `Some` until the first
    /// poll consumes it, `None` from then on.
    pub closed spec fn slot(self) -> Option<E> {
        self.e
    }
}

/// Creates a leaf future from an immediate value of a failed computation.
///
/// The returned future is already resolved: its first poll delivers
/// `Failed(e)`, and a scheduled wake handle is still invoked, so callers
/// that rely on "poll after being woken" work for it too.
pub fn failed<T, E>(e: E) -> (r: Failed<T, E>) where T: Send + 'static, E: Send + 'static
    ensures
        r.slot() == Some(e),
{
    Failed { _t: PhantomData, e: Some(e) }
}

impl<T, E> Future for Failed<T, E> where T: Send + 'static, E: Send + 'static {
    type Item = T;

    type Error = E;

    /// One poll empties the slot, whatever it held; the outcome is the held
    /// failure value on the first call and the defined fault on every later
    /// one, never `Pending` and never a stale value.
    open spec fn poll_rel(pre: Self, post: Self, r: PollResult<T, E>) -> bool {
        &&& post.slot() is None
        &&& match pre.slot() {
            Some(e) => r == PollResult::<T, E>::Failed(e),
            None => r == PollResult::<T, E>::PolledAfterComplete,
        }
    }

    /// Registering a wake never touches the slot: the state is unchanged.
    open spec fn schedule_rel(pre: Self, post: Self) -> bool {
        post == pre
    }

    fn poll(&mut self) -> (r: PollResult<T, E>)
        ensures
            Self::poll_rel(*old(self), *final(self), r),
    {
        match self.e.take() {
            Some(e) => PollResult::Failed(e),
            None => PollResult::PolledAfterComplete,
        }
    }

    /// Unconditionally hands the wake handle to the executor to be invoked
    /// asynchronously, decoupled from the calling stack, whether or not the
    /// future has already been polled: an already-resolved future satisfies
    /// the liveness contract uniformly with futures that resolve later.
    fn schedule<W: Wake + Send + 'static, X: Executor>(&mut self, wake: W, exec: &X)
        ensures
            Self::schedule_rel(*old(self), *final(self)),
    {
        exec.execute(move || wake.wake());
    }

    /// This is a leaf: it never delegates.
    fn tailcall(&mut self) -> (r: Option<Box<Self>>)
        ensures
            r is None,
            *final(self) == *old(self),
    {
        None
    }
}

/// For every failure value `e`: a future fresh from [`failed`] delivers
/// `Failed(e)` on its first poll, and on a second poll it reports
/// `PolledAfterComplete` — never `Failed(e)` again and never `Pending`.
///
/// The states `f0`, `f1`, `f2` are the future before any poll, after the
/// first, and after the second; `r1` and `r2` are the two outcomes.
pub proof fn failed_poll_protocol<T, E>(
    f0: Failed<T, E>,
    f1: Failed<T, E>,
    f2: Failed<T, E>,
    e: E,
    r1: PollResult<T, E>,
    r2: PollResult<T, E>,
) where T: Send + 'static, E: Send + 'static
    requires
        f0.slot() == Some(e),
        Failed::<T, E>::poll_rel(f0, f1, r1),
        Failed::<T, E>::poll_rel(f1, f2, r2),
    ensures
        r1 == PollResult::<T, E>::Failed(e),
        r2 == PollResult::<T, E>::PolledAfterComplete,
        r2 != PollResult::<T, E>::Pending,
{
}

} // verus!
