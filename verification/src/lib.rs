//! A minimal, non-blocking, poll-based asynchronous computation core.
//!
//! The core is the poll/wake contract: a [`future::Future`] is polled for its
//! current outcome, and when no outcome is available yet it registers a
//! [`future::Wake`] handle through which a scheduler later signals "poll me
//! again".  Two sample combinators exercise the contract: [`failed::Failed`],
//! a leaf future that is already resolved to a failure value, and
//! [`future::discard::Discard`], a wrapper that erases an inner future's
//! value and error payloads to unit.

pub mod failed;
pub mod future;
pub mod poll;

pub use crate::failed::Failed;
pub use crate::failed::failed;
pub use crate::future::Executor;
pub use crate::future::Future;
pub use crate::future::Wake;
pub use crate::poll::PollResult;
