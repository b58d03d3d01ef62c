use vstd::prelude::*;

use crate::future::Executor;
use crate::future::Future;
use crate::future::Wake;
use crate::poll::PollResult;

verus! {

/// `Discard` waits for an underlying future to complete, but discards its
/// result or error: only the kind of the outcome crosses the wrapper, with
/// both payloads erased to unit.  It owns the inner future exclusively and
/// holds no state of its own.
#[derive(Debug)]
pub struct Discard<F>(F);

impl<F> Discard<F> {
    /// The wrapped inner future, the wrapper's whole state.
    pub closed spec fn inner(self) -> F {
        self.0
    }
}

/// Wraps a future, taking ownership of it, so that its value and error
/// payloads are discarded and only the outcome kind is reported.
pub fn new<F: Future>(f: F) -> (r: Discard<F>)
    ensures
        r.inner() == f,
{
    Discard(f)
}

/// The outcome the wrapper reports for a given inner outcome: the kind is
/// preserved, the payload is erased to unit.  `Pending` and the
/// polled-after-completion fault carry no payload and pass through as they
/// are.
pub open spec fn discard_outcome<T, E>(r: PollResult<T, E>) -> PollResult<(), ()> {
    match r {
        PollResult::Ready(_) => PollResult::Ready(()),
        PollResult::Pending => PollResult::Pending,
        PollResult::Failed(_) => PollResult::Failed(()),
        PollResult::PolledAfterComplete => PollResult::PolledAfterComplete,
    }
}

impl<F: Future> Future for Discard<F> {
    type Item = ();

    type Error = ();

    /// One poll of the wrapper is one poll of the inner future: the inner
    /// future makes some transition its own relation admits, and the wrapper
    /// reports that outcome with the payload erased.
    open spec fn poll_rel(pre: Self, post: Self, r: PollResult<(), ()>) -> bool {
        exists|ri: PollResult<F::Item, F::Error>|
            #[trigger] F::poll_rel(pre.inner(), post.inner(), ri) && r == discard_outcome(ri)
    }

    /// Registration is forwarded to the inner future, whose own relation
    /// bounds what may happen to the state.
    open spec fn schedule_rel(pre: Self, post: Self) -> bool {
        F::schedule_rel(pre.inner(), post.inner())
    }

    fn poll(&mut self) -> (r: PollResult<(), ()>)
        ensures
            Self::poll_rel(*old(self), *final(self), r),
    {
        let ri = self.0.poll();
        let r = match &ri {
            PollResult::Ready(_) => PollResult::<(), ()>::Ready(()),
            PollResult::Pending => PollResult::<(), ()>::Pending,
            PollResult::Failed(_) => PollResult::<(), ()>::Failed(()),
            PollResult::PolledAfterComplete => PollResult::<(), ()>::PolledAfterComplete,
        };
        proof {
            assert(F::poll_rel(old(self).inner(), self.inner(), ri));
            assert(r == discard_outcome(ri));
        }
        r
    }

    /// Forwards the wake handle to the inner future: whatever notification
    /// the inner future guarantees, the wrapper guarantees too.
    fn schedule<W: Wake + Send + 'static, X: Executor>(&mut self, wake: W, exec: &X)
        ensures
            Self::schedule_rel(*old(self), *final(self)),
    {
        self.0.schedule(wake, exec);
    }

    /// No redirection of its own: the wrapper is polled directly.
    fn tailcall(&mut self) -> (r: Option<Box<Self>>)
        ensures
            r is None,
            *final(self) == *old(self),
    {
        None
    }
}

/// If the inner future's poll yields `Ready(v)` — taking the wrapper's
/// state from `pre` to `post` — then the wrapper's poll over that same
/// transition yields `Ready(())`.
pub proof fn discard_poll_ready<F: Future>(pre: Discard<F>, post: Discard<F>, v: F::Item)
    requires
        F::poll_rel(pre.inner(), post.inner(), PollResult::<F::Item, F::Error>::Ready(v)),
    ensures
        <Discard<F> as Future>::poll_rel(pre, post, PollResult::<(), ()>::Ready(())),
{
    let ri = PollResult::<F::Item, F::Error>::Ready(v);
    assert(F::poll_rel(pre.inner(), post.inner(), ri));
    assert(PollResult::<(), ()>::Ready(()) == discard_outcome(ri));
}

/// If the inner future's poll yields `Failed(e)`, then the wrapper's poll
/// over that same transition yields `Failed(())`.
pub proof fn discard_poll_failed<F: Future>(pre: Discard<F>, post: Discard<F>, e: F::Error)
    requires
        F::poll_rel(pre.inner(), post.inner(), PollResult::<F::Item, F::Error>::Failed(e)),
    ensures
        <Discard<F> as Future>::poll_rel(pre, post, PollResult::<(), ()>::Failed(())),
{
    let ri = PollResult::<F::Item, F::Error>::Failed(e);
    assert(F::poll_rel(pre.inner(), post.inner(), ri));
    assert(PollResult::<(), ()>::Failed(()) == discard_outcome(ri));
}

/// If the inner future's poll yields `Pending`, then the wrapper's poll over
/// that same transition yields `Pending`: the wrapper, which holds no state
/// beyond the inner future, mutates nothing of its own.
pub proof fn discard_poll_pending<F: Future>(pre: Discard<F>, post: Discard<F>)
    requires
        F::poll_rel(pre.inner(), post.inner(), PollResult::<F::Item, F::Error>::Pending),
    ensures
        <Discard<F> as Future>::poll_rel(pre, post, PollResult::<(), ()>::Pending),
{
    let ri = PollResult::<F::Item, F::Error>::Pending;
    assert(F::poll_rel(pre.inner(), post.inner(), ri));
    assert(PollResult::<(), ()>::Pending == discard_outcome(ri));
}

} // verus!
