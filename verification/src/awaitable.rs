//! The capability interface every wrapper races against: a computation that
//! is polled at explicit instants of a discrete monotonic clock.
//!
//! The model of a computation is its earliest readiness instant together
//! with the outcome a poll at a given instant would yield. Polling never
//! changes that model; it only consumes the terminal value once the clock
//! has reached the readiness instant.

use vstd::prelude::*;

use crate::poll::Poll;

verus! {

/// The earlier of two optional readiness instants; `None` stands for a
/// computation that never becomes ready.
pub open spec fn ready_min(a: Option<u64>, b: Option<u64>) -> Option<u64> {
    match (a, b) {
        (Some(x), Some(y)) => if x <= y {
            Some(x)
        } else {
            Some(y)
        },
        (Some(x), None) => Some(x),
        (None, Some(y)) => Some(y),
        (None, None) => None,
    }
}

/// Whether a computation with readiness instant `ready` is ready at
/// instant `now`.
pub open spec fn ready_by(ready: Option<u64>, now: u64) -> bool {
    ready matches Some(rt) && rt <= now
}

/// The outcome of a race observed at instant `now`: the inner computation's
/// value if the computation is ready by then (completion wins a tie), the
/// interrupt otherwise.
pub open spec fn race_outcome<T, I>(
    inner_ready: Option<u64>,
    inner_value: T,
    interrupt: I,
    now: u64,
) -> Result<T, I> {
    if ready_by(inner_ready, now) {
        Ok(inner_value)
    } else {
        Err(interrupt)
    }
}

/// An abstract, suspendable unit of work, driven by polls at explicit
/// instants.
pub trait Awaitable: Sized {
    /// The terminal value the computation eventually produces.
    type Output;

    /// Well-formedness of the computation's internal state.
    spec fn inv(&self) -> bool;

    /// Whether the computation has already yielded its terminal value.
    spec fn is_done(&self) -> bool;

    /// The earliest instant at which a poll yields the terminal value;
    /// `None` means no poll ever will.
    spec fn ready_at(&self) -> Option<u64>;

    /// The value a poll at instant `now` yields, if it yields one.
    spec fn result_at(&self, now: u64) -> Self::Output;

    /// Ask the computation to make progress at instant `now`. A poll at or
    /// after the readiness instant yields the terminal value; an earlier
    /// poll leaves the computation suspended. Polling never changes the
    /// readiness instant or the planned outcomes.
    fn poll(&mut self, now: u64) -> (r: Poll<Self::Output>)
        requires
            old(self).inv(),
            !old(self).is_done(),
        ensures
            final(self).inv(),
            final(self).ready_at() == old(self).ready_at(),
            forall|t: u64| #[trigger] final(self).result_at(t) == old(self).result_at(t),
            match r {
                Poll::Ready(v) => final(self).is_done() && old(self).ready_at() is Some
                    && old(self).ready_at()->0 <= now && v == old(self).result_at(now),
                Poll::Pending => !final(self).is_done() && (old(self).ready_at() is Some ==> now
                    < old(self).ready_at()->0),
            },
    ;

    /// The readiness instant, computed.
    fn ready_time(&self) -> (r: Option<u64>)
        requires
            self.inv(),
        ensures
            r == self.ready_at(),
    ;
}

/// The outcome a computation settles on when it is driven by an executor
/// that polls it at every instant: the value yielded at the readiness
/// instant, or nothing if the computation never becomes ready.
pub open spec fn eventual_outcome<A: Awaitable>(a: A) -> Option<A::Output> {
    match a.ready_at() {
        Some(t) => Some(a.result_at(t)),
        None => None,
    }
}

/// Drive a computation to its terminal value, polling it at every instant
/// from `start` on, as a dense cooperative executor would.
pub fn run<A: Awaitable>(a: &mut A, start: u64) -> (r: A::Output)
    requires
        old(a).inv(),
        !old(a).is_done(),
        old(a).ready_at() is Some,
        start <= old(a).ready_at()->0,
    ensures
        final(a).inv(),
        final(a).is_done(),
        Some(r) == eventual_outcome(*old(a)),
{
    let mut now: u64 = start;
    loop
        invariant
            a.inv(),
            !a.is_done(),
            a.ready_at() == old(a).ready_at(),
            forall|t: u64| #[trigger] a.result_at(t) == old(a).result_at(t),
            old(a).ready_at() is Some,
            now <= old(a).ready_at()->0,
        decreases old(a).ready_at()->0 - now,
    {
        match a.poll(now) {
            Poll::Ready(v) => {
                return v;
            },
            Poll::Pending => {
                now = now + 1;
            },
        }
    }
}

} // verus!
