//! Computations constrained by time.
//!
//! A [`Timeout`] wrapper races an inner computation against a timer armed
//! for a relative duration; a [`Deadline`] wrapper races it against a timer
//! armed for an absolute instant. Both share the completion-wins tie-break:
//! even a timer that is already due gives the computation one opportunity
//! to complete in the same step.

use vstd::prelude::*;

use crate::awaitable::eventual_outcome;
use crate::awaitable::race_outcome;
use crate::awaitable::ready_min;
use crate::awaitable::Awaitable;
use crate::error::try_race_outcome;
use crate::error::MaybeInterrupted;
use crate::poll::Poll;

verus! {

/// Error yielded by a computation that ran out of time.
#[derive(Clone, Copy, Debug, PartialEq, Eq, Structural)]
pub struct TimedOut;

/// Addition on instants that stops at the end of the clock instead of
/// wrapping around.
pub open spec fn sat_add(a: u64, b: u64) -> u64 {
    if a + b <= u64::MAX {
        (a + b) as u64
    } else {
        u64::MAX
    }
}

/// Arming a timer for offset `t - now` at instant `now` makes it due
/// exactly at the absolute instant `t`.
pub proof fn lemma_offset_roundtrip(now: u64, t: u64)
    requires
        now <= t,
    ensures
        sat_add(now, (t - now) as u64) == t,
{
}

/// A computation that must complete within a relative duration, counted
/// from the moment the wrapper is armed.
pub struct Timeout<F> {
    future: F,
    expires: u64,
    done: bool,
}

impl<F> Timeout<F> {
    /// The absolute instant at which the timer fires.
    pub closed spec fn spec_expires(&self) -> u64 {
        self.expires
    }

    /// The wrapped computation, as a model value.
    pub closed spec fn spec_future(&self) -> F {
        self.future
    }
}

impl<F: Awaitable> Timeout<F> {
    /// Wrap a computation with a timer armed at instant `now` for a
    /// relative `timeout`.
    pub fn new(future: F, timeout: u64, now: u64) -> (r: Timeout<F>)
        requires
            future.inv(),
            !future.is_done(),
        ensures
            r.inv(),
            !r.is_done(),
            r.spec_future() == future,
            r.spec_expires() == sat_add(now, timeout),
            r.ready_at() == ready_min(future.ready_at(), Some(sat_add(now, timeout))),
            forall|n: u64| #[trigger]
                r.result_at(n) == race_outcome(future.ready_at(), future.result_at(n), TimedOut, n),
    {
        let expires: u64 = if timeout <= u64::MAX - now {
            now + timeout
        } else {
            u64::MAX
        };
        Timeout { future, expires, done: false }
    }
}

impl<F: Awaitable> Awaitable for Timeout<F> {
    type Output = Result<F::Output, TimedOut>;

    closed spec fn inv(&self) -> bool {
        &&& self.future.inv()
        &&& !self.done ==> !self.future.is_done()
    }

    closed spec fn is_done(&self) -> bool {
        self.done
    }

    closed spec fn ready_at(&self) -> Option<u64> {
        ready_min(self.future.ready_at(), Some(self.expires))
    }

    closed spec fn result_at(&self, now: u64) -> Result<F::Output, TimedOut> {
        race_outcome(self.future.ready_at(), self.future.result_at(now), TimedOut, now)
    }

    fn poll(&mut self, now: u64) -> (r: Poll<Result<F::Output, TimedOut>>) {
        match self.future.poll(now) {
            Poll::Ready(v) => {
                self.done = true;
                Poll::Ready(Ok(v))
            },
            Poll::Pending => {
                if now >= self.expires {
                    self.done = true;
                    Poll::Ready(Err(TimedOut))
                } else {
                    Poll::Pending
                }
            },
        }
    }

    fn ready_time(&self) -> (r: Option<u64>) {
        match self.future.ready_time() {
            Some(x) => if x <= self.expires {
                Some(x)
            } else {
                Some(self.expires)
            },
            None => Some(self.expires),
        }
    }
}

/// A computation that must complete before an absolute instant.
pub struct Deadline<F> {
    future: F,
    deadline: u64,
    done: bool,
}

impl<F> Deadline<F> {
    /// The absolute instant at which the timer fires.
    pub closed spec fn spec_deadline(&self) -> u64 {
        self.deadline
    }

    /// The wrapped computation, as a model value.
    pub closed spec fn spec_future(&self) -> F {
        self.future
    }
}

impl<F: Awaitable> Deadline<F> {
    /// Wrap a computation with a timer armed for the absolute instant
    /// `deadline`.
    pub fn new(future: F, deadline: u64) -> (r: Deadline<F>)
        requires
            future.inv(),
            !future.is_done(),
        ensures
            r.inv(),
            !r.is_done(),
            r.spec_future() == future,
            r.spec_deadline() == deadline,
            r.ready_at() == ready_min(future.ready_at(), Some(deadline)),
            forall|n: u64| #[trigger]
                r.result_at(n) == race_outcome(future.ready_at(), future.result_at(n), TimedOut, n),
    {
        Deadline { future, deadline, done: false }
    }
}

impl<F: Awaitable> Awaitable for Deadline<F> {
    type Output = Result<F::Output, TimedOut>;

    closed spec fn inv(&self) -> bool {
        &&& self.future.inv()
        &&& !self.done ==> !self.future.is_done()
    }

    closed spec fn is_done(&self) -> bool {
        self.done
    }

    closed spec fn ready_at(&self) -> Option<u64> {
        ready_min(self.future.ready_at(), Some(self.deadline))
    }

    closed spec fn result_at(&self, now: u64) -> Result<F::Output, TimedOut> {
        race_outcome(self.future.ready_at(), self.future.result_at(now), TimedOut, now)
    }

    fn poll(&mut self, now: u64) -> (r: Poll<Result<F::Output, TimedOut>>) {
        match self.future.poll(now) {
            Poll::Ready(v) => {
                self.done = true;
                Poll::Ready(Ok(v))
            },
            Poll::Pending => {
                if now >= self.deadline {
                    self.done = true;
                    Poll::Ready(Err(TimedOut))
                } else {
                    Poll::Pending
                }
            },
        }
    }

    fn ready_time(&self) -> (r: Option<u64>) {
        match self.future.ready_time() {
            Some(x) => if x <= self.deadline {
                Some(x)
            } else {
                Some(self.deadline)
            },
            None => Some(self.deadline),
        }
    }
}

/// A fallible computation that must complete within a relative duration:
/// the race keeps the computation's own failure apart from the timeout.
pub struct TryTimeout<F> {
    future: F,
    expires: u64,
    done: bool,
}

impl<F> TryTimeout<F> {
    /// The absolute instant at which the timer fires.
    pub closed spec fn spec_expires(&self) -> u64 {
        self.expires
    }

    /// The wrapped computation, as a model value.
    pub closed spec fn spec_future(&self) -> F {
        self.future
    }
}

impl<T, E, F: Awaitable<Output = Result<T, E>>> TryTimeout<F> {
    /// Wrap a fallible computation with a timer armed at instant `now` for
    /// a relative `timeout`.
    pub fn new(future: F, timeout: u64, now: u64) -> (r: TryTimeout<F>)
        requires
            future.inv(),
            !future.is_done(),
        ensures
            r.inv(),
            !r.is_done(),
            r.spec_future() == future,
            r.spec_expires() == sat_add(now, timeout),
            r.ready_at() == ready_min(future.ready_at(), Some(sat_add(now, timeout))),
            forall|n: u64| #[trigger]
                r.result_at(n) == try_race_outcome(
                    future.ready_at(),
                    future.result_at(n),
                    MaybeInterrupted::TimedOut(TimedOut),
                    n,
                ),
    {
        let expires: u64 = if timeout <= u64::MAX - now {
            now + timeout
        } else {
            u64::MAX
        };
        TryTimeout { future, expires, done: false }
    }
}

impl<T, E, F: Awaitable<Output = Result<T, E>>> Awaitable for TryTimeout<F> {
    type Output = Result<T, MaybeInterrupted<E>>;

    closed spec fn inv(&self) -> bool {
        &&& self.future.inv()
        &&& !self.done ==> !self.future.is_done()
    }

    closed spec fn is_done(&self) -> bool {
        self.done
    }

    closed spec fn ready_at(&self) -> Option<u64> {
        ready_min(self.future.ready_at(), Some(self.expires))
    }

    closed spec fn result_at(&self, now: u64) -> Result<T, MaybeInterrupted<E>> {
        try_race_outcome(
            self.future.ready_at(),
            self.future.result_at(now),
            MaybeInterrupted::TimedOut(TimedOut),
            now,
        )
    }

    fn poll(&mut self, now: u64) -> (r: Poll<Result<T, MaybeInterrupted<E>>>) {
        match self.future.poll(now) {
            Poll::Ready(v) => {
                self.done = true;
                match v {
                    Ok(t) => Poll::Ready(Ok(t)),
                    Err(e) => Poll::Ready(Err(MaybeInterrupted::Error(e))),
                }
            },
            Poll::Pending => {
                if now >= self.expires {
                    self.done = true;
                    Poll::Ready(Err(MaybeInterrupted::TimedOut(TimedOut)))
                } else {
                    Poll::Pending
                }
            },
        }
    }

    fn ready_time(&self) -> (r: Option<u64>) {
        match self.future.ready_time() {
            Some(x) => if x <= self.expires {
                Some(x)
            } else {
                Some(self.expires)
            },
            None => Some(self.expires),
        }
    }
}

/// The model of a fallible timer race, in terms of the wrapped computation
/// and the timer: it is ready as soon as either is, and its outcome at any
/// instant keeps the computation's own failure apart from the timeout.
pub proof fn lemma_try_timeout_model<T, E, F: Awaitable<Output = Result<T, E>>>(
    w: TryTimeout<F>,
    n: u64,
)
    ensures
        w.ready_at() == ready_min(w.spec_future().ready_at(), Some(w.spec_expires())),
        w.result_at(n) == try_race_outcome(
            w.spec_future().ready_at(),
            w.spec_future().result_at(n),
            MaybeInterrupted::TimedOut(TimedOut),
            n,
        ),
{
}

/// A fallible computation that must complete before an absolute instant:
/// the race keeps the computation's own failure apart from the timeout.
pub struct TryDeadline<F> {
    future: F,
    deadline: u64,
    done: bool,
}

impl<F> TryDeadline<F> {
    /// The absolute instant at which the timer fires.
    pub closed spec fn spec_deadline(&self) -> u64 {
        self.deadline
    }

    /// The wrapped computation, as a model value.
    pub closed spec fn spec_future(&self) -> F {
        self.future
    }
}

impl<T, E, F: Awaitable<Output = Result<T, E>>> TryDeadline<F> {
    /// Wrap a fallible computation with a timer armed for the absolute
    /// instant `deadline`.
    pub fn new(future: F, deadline: u64) -> (r: TryDeadline<F>)
        requires
            future.inv(),
            !future.is_done(),
        ensures
            r.inv(),
            !r.is_done(),
            r.spec_future() == future,
            r.spec_deadline() == deadline,
            r.ready_at() == ready_min(future.ready_at(), Some(deadline)),
            forall|n: u64| #[trigger]
                r.result_at(n) == try_race_outcome(
                    future.ready_at(),
                    future.result_at(n),
                    MaybeInterrupted::TimedOut(TimedOut),
                    n,
                ),
    {
        TryDeadline { future, deadline, done: false }
    }
}

impl<T, E, F: Awaitable<Output = Result<T, E>>> Awaitable for TryDeadline<F> {
    type Output = Result<T, MaybeInterrupted<E>>;

    closed spec fn inv(&self) -> bool {
        &&& self.future.inv()
        &&& !self.done ==> !self.future.is_done()
    }

    closed spec fn is_done(&self) -> bool {
        self.done
    }

    closed spec fn ready_at(&self) -> Option<u64> {
        ready_min(self.future.ready_at(), Some(self.deadline))
    }

    closed spec fn result_at(&self, now: u64) -> Result<T, MaybeInterrupted<E>> {
        try_race_outcome(
            self.future.ready_at(),
            self.future.result_at(now),
            MaybeInterrupted::TimedOut(TimedOut),
            now,
        )
    }

    fn poll(&mut self, now: u64) -> (r: Poll<Result<T, MaybeInterrupted<E>>>) {
        match self.future.poll(now) {
            Poll::Ready(v) => {
                self.done = true;
                match v {
                    Ok(t) => Poll::Ready(Ok(t)),
                    Err(e) => Poll::Ready(Err(MaybeInterrupted::Error(e))),
                }
            },
            Poll::Pending => {
                if now >= self.deadline {
                    self.done = true;
                    Poll::Ready(Err(MaybeInterrupted::TimedOut(TimedOut)))
                } else {
                    Poll::Pending
                }
            },
        }
    }

    fn ready_time(&self) -> (r: Option<u64>) {
        match self.future.ready_time() {
            Some(x) => if x <= self.deadline {
                Some(x)
            } else {
                Some(self.deadline)
            },
            None => Some(self.deadline),
        }
    }
}

/// A computation whose natural completion is later than the timer yields
/// `TimedOut`.
pub proof fn lemma_timeout_expires<F: Awaitable>(w: Timeout<F>)
    requires
        w.spec_future().ready_at() matches Some(ft) ==> w.spec_expires() < ft,
    ensures
        w.ready_at() == Some(w.spec_expires()),
        eventual_outcome(w) == Some(Err::<F::Output, TimedOut>(TimedOut)),
{
}

/// A computation that is ready no later than the timer settles the race on
/// its own value: completion wins the tie.
pub proof fn lemma_timeout_completes<F: Awaitable>(w: Timeout<F>, ft: u64)
    requires
        w.spec_future().ready_at() == Some(ft),
        ft <= w.spec_expires(),
    ensures
        w.ready_at() == Some(ft),
        eventual_outcome(w) == Some(Ok::<F::Output, TimedOut>(w.spec_future().result_at(ft))),
{
}

/// A deadline wrapper and a timeout wrapper armed for the same absolute
/// instant around the same computation are observationally equivalent.
pub proof fn lemma_deadline_equals_timeout<F: Awaitable>(d: Deadline<F>, w: Timeout<F>)
    requires
        d.spec_future() == w.spec_future(),
        d.spec_deadline() == w.spec_expires(),
    ensures
        d.ready_at() == w.ready_at(),
        forall|n: u64| #[trigger] d.result_at(n) == w.result_at(n),
        eventual_outcome(d) == eventual_outcome(w),
{
}

} // verus!
