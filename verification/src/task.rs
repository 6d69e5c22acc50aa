//! A model computation with a fixed completion instant: the leaf every
//! wrapper is exercised against.

use vstd::prelude::*;

use crate::awaitable::Awaitable;
use crate::poll::Poll;

verus! {

/// A computation that becomes ready at a fixed instant and then yields a
/// fixed value. A fallible computation is a `Task` whose value is a
/// `Result`.
pub struct Task<T> {
    at: u64,
    value: Option<T>,
    planned: Ghost<T>,
}

impl<T> Task<T> {
    /// Create a computation that completes at instant `at` with `value`.
    pub fn new(at: u64, value: T) -> (r: Task<T>)
        ensures
            r.inv(),
            !r.is_done(),
            r.ready_at() == Some(at),
            forall|t: u64| #[trigger] r.result_at(t) == value,
    {
        let ghost planned = value;
        Task { at, value: Some(value), planned: Ghost(planned) }
    }
}

impl<T> Awaitable for Task<T> {
    type Output = T;

    closed spec fn inv(&self) -> bool {
        self.value matches Some(v) ==> v == self.planned@
    }

    closed spec fn is_done(&self) -> bool {
        self.value is None
    }

    closed spec fn ready_at(&self) -> Option<u64> {
        Some(self.at)
    }

    closed spec fn result_at(&self, now: u64) -> T {
        self.planned@
    }

    fn poll(&mut self, now: u64) -> (r: Poll<T>) {
        if now >= self.at {
            match self.value.take() {
                Some(v) => Poll::Ready(v),
                None => unreached(),
            }
        } else {
            Poll::Pending
        }
    }

    fn ready_time(&self) -> (r: Option<u64>) {
        Some(self.at)
    }
}

} // verus!
