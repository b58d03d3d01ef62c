use vstd::prelude::*;

verus! {

/// The outcome of one non-blocking poll of a future.
///
/// Exactly one outcome is reported per call.  The first three variants are
/// the ordinary tri-state result: the computation finished with a value
/// (`Ready`), it has made no progress since the last poll (`Pending`), or it
/// finished with an error (`Failed`).  The fourth, `PolledAfterComplete`, is
/// the one fault intrinsic to the poll contract: the caller polled again
/// after a terminal outcome (`Ready` or `Failed`) had already been delivered.
/// It is reported through the same channel as the ordinary outcomes, kept
/// distinct both from `Pending` and from any stale re-delivery, so that a
/// caller can tell "still working" from "the protocol was broken".
#[derive(Debug, PartialEq, Eq)]
pub enum PollResult<T, E> {
    /// The computation finished and yields this value.
    Ready(T),
    /// No outcome yet: register a wake handle and poll again after it fires.
    Pending,
    /// The computation finished and yields this error.
    Failed(E),
    /// The future was polled again after it had delivered a terminal outcome.
    PolledAfterComplete,
}

} // verus!
