//! The unit of suspension and resumption: a single poll either yields the
//! terminal value or reports that the computation is still pending.
//!
//! The free functions below are the race decisions shared by every wrapper:
//! given the readiness of the inner computation and of its interrupt source
//! within one step, they pick the step's outcome. The computation branch is
//! always consulted first, so a simultaneously ready completion beats a
//! simultaneously ready interrupt.

use vstd::prelude::*;

use crate::cancel::Canceled;
use crate::error::MaybeInterrupted;
use crate::timeout::TimedOut;

verus! {

/// Result of asking a computation to make progress once.
pub enum Poll<T> {
    /// The computation finished with its terminal value.
    Ready(T),
    /// The computation is suspended; a later step may resume it.
    Pending,
}

impl<T> Poll<T> {
    /// Whether this step produced the terminal value.
    pub fn is_ready(&self) -> (r: bool)
        ensures
            r == (self is Ready),
    {
        match self {
            Poll::Ready(_) => true,
            Poll::Pending => false,
        }
    }
}

/// One race step between a computation and a cancellation source,
/// with the completion-wins tie-break.
pub open spec fn spec_race_step<T>(inner: Poll<T>, interrupt: Poll<()>) -> Poll<Result<T, Canceled>> {
    match inner {
        Poll::Ready(v) => Poll::Ready(Ok(v)),
        Poll::Pending => match interrupt {
            Poll::Ready(u) => Poll::Ready(Err(Canceled)),
            Poll::Pending => Poll::Pending,
        },
    }
}

/// Decide one step of a cancellation race: a ready computation wins even if
/// the interrupt is ready in the same step.
pub fn race_step<T>(inner: Poll<T>, interrupt: Poll<()>) -> (r: Poll<Result<T, Canceled>>)
    ensures
        r == spec_race_step(inner, interrupt),
{
    match inner {
        Poll::Ready(v) => Poll::Ready(Ok(v)),
        Poll::Pending => match interrupt {
            Poll::Ready(_) => Poll::Ready(Err(Canceled)),
            Poll::Pending => Poll::Pending,
        },
    }
}

/// One race step between a computation and a timer,
/// with the completion-wins tie-break.
pub open spec fn spec_timed_step<T>(inner: Poll<T>, timer: Poll<()>) -> Poll<Result<T, TimedOut>> {
    match inner {
        Poll::Ready(v) => Poll::Ready(Ok(v)),
        Poll::Pending => match timer {
            Poll::Ready(u) => Poll::Ready(Err(TimedOut)),
            Poll::Pending => Poll::Pending,
        },
    }
}

/// Decide one step of a timeout race: a ready computation wins even if the
/// timer fires in the same step.
pub fn timed_step<T>(inner: Poll<T>, timer: Poll<()>) -> (r: Poll<Result<T, TimedOut>>)
    ensures
        r == spec_timed_step(inner, timer),
{
    match inner {
        Poll::Ready(v) => Poll::Ready(Ok(v)),
        Poll::Pending => match timer {
            Poll::Ready(_) => Poll::Ready(Err(TimedOut)),
            Poll::Pending => Poll::Pending,
        },
    }
}

/// One race step for a fallible computation and a cancellation source: the
/// computation's own failure is kept apart from the interrupt.
pub open spec fn spec_try_race_step<T, E>(
    inner: Poll<Result<T, E>>,
    interrupt: Poll<()>,
) -> Poll<Result<T, MaybeInterrupted<E>>> {
    match inner {
        Poll::Ready(v) => match v {
            Ok(t) => Poll::Ready(Ok(t)),
            Err(e) => Poll::Ready(Err(MaybeInterrupted::Error(e))),
        },
        Poll::Pending => match interrupt {
            Poll::Ready(u) => Poll::Ready(Err(MaybeInterrupted::Canceled(Canceled))),
            Poll::Pending => Poll::Pending,
        },
    }
}

/// Decide one step of a cancellation race over a fallible computation.
pub fn try_race_step<T, E>(
    inner: Poll<Result<T, E>>,
    interrupt: Poll<()>,
) -> (r: Poll<Result<T, MaybeInterrupted<E>>>)
    ensures
        r == spec_try_race_step(inner, interrupt),
{
    match inner {
        Poll::Ready(v) => match v {
            Ok(t) => Poll::Ready(Ok(t)),
            Err(e) => Poll::Ready(Err(MaybeInterrupted::Error(e))),
        },
        Poll::Pending => match interrupt {
            Poll::Ready(_) => Poll::Ready(Err(MaybeInterrupted::Canceled(Canceled))),
            Poll::Pending => Poll::Pending,
        },
    }
}

/// One race step for a fallible computation and a timer.
pub open spec fn spec_try_timed_step<T, E>(
    inner: Poll<Result<T, E>>,
    timer: Poll<()>,
) -> Poll<Result<T, MaybeInterrupted<E>>> {
    match inner {
        Poll::Ready(v) => match v {
            Ok(t) => Poll::Ready(Ok(t)),
            Err(e) => Poll::Ready(Err(MaybeInterrupted::Error(e))),
        },
        Poll::Pending => match timer {
            Poll::Ready(u) => Poll::Ready(Err(MaybeInterrupted::TimedOut(TimedOut))),
            Poll::Pending => Poll::Pending,
        },
    }
}

/// Decide one step of a timeout race over a fallible computation.
pub fn try_timed_step<T, E>(
    inner: Poll<Result<T, E>>,
    timer: Poll<()>,
) -> (r: Poll<Result<T, MaybeInterrupted<E>>>)
    ensures
        r == spec_try_timed_step(inner, timer),
{
    match inner {
        Poll::Ready(v) => match v {
            Ok(t) => Poll::Ready(Ok(t)),
            Err(e) => Poll::Ready(Err(MaybeInterrupted::Error(e))),
        },
        Poll::Pending => match timer {
            Poll::Ready(_) => Poll::Ready(Err(MaybeInterrupted::TimedOut(TimedOut))),
            Poll::Pending => Poll::Pending,
        },
    }
}

} // verus!
