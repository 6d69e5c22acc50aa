//! An adapter that folds a fallible computation's interrupt-aware error
//! into the flat interrupt taxonomy.

use core::marker::PhantomData;

use vstd::prelude::*;

use crate::awaitable::Awaitable;
use crate::error::MayInterrupt;
use crate::error::MaybeInterrupted;
use crate::poll::Poll;

verus! {

/// The flat meaning of a fallible outcome whose error can declare
/// interrupt awareness: a success is kept, an error is unwrapped into the
/// flat union.
pub open spec fn flatten_once<T, E, I: MayInterrupt<E>>(v: Result<T, I>) -> Result<
    T,
    MaybeInterrupted<E>,
> {
    match v {
        Ok(t) => Ok(t),
        Err(i) => Err(i.as_interrupt()),
    }
}

/// A computation whose error type can declare interrupt awareness, folded
/// into the flat union. Requiring the [`MayInterrupt`] capability makes a
/// stack with an interrupt-unaware error fail to type-check instead of
/// being misclassified at run time.
pub struct TryFlattenInterrupt<F, E> {
    future: F,
    interrupt: PhantomData<E>,
}

impl<F, E> TryFlattenInterrupt<F, E> {
    /// The wrapped computation, as a model value.
    pub closed spec fn spec_future(&self) -> F {
        self.future
    }
}

impl<T, I, E, F: Awaitable<Output = Result<T, I>>> TryFlattenInterrupt<F, E> where
    I: MayInterrupt<E>,
 {
    /// Fold the error of `future` into the flat union.
    pub fn new(future: F) -> (r: TryFlattenInterrupt<F, E>)
        requires
            future.inv(),
            !future.is_done(),
        ensures
            r.inv(),
            !r.is_done(),
            r.spec_future() == future,
            r.ready_at() == future.ready_at(),
            forall|n: u64| #[trigger] r.result_at(n) == flatten_once(future.result_at(n)),
    {
        TryFlattenInterrupt { future, interrupt: PhantomData }
    }
}

impl<T, I, E, F: Awaitable<Output = Result<T, I>>> Awaitable for TryFlattenInterrupt<
    F,
    E,
> where I: MayInterrupt<E> {
    type Output = Result<T, MaybeInterrupted<E>>;

    closed spec fn inv(&self) -> bool {
        self.future.inv()
    }

    closed spec fn is_done(&self) -> bool {
        self.future.is_done()
    }

    closed spec fn ready_at(&self) -> Option<u64> {
        self.future.ready_at()
    }

    closed spec fn result_at(&self, now: u64) -> Result<T, MaybeInterrupted<E>> {
        flatten_once(self.future.result_at(now))
    }

    fn poll(&mut self, now: u64) -> (r: Poll<Result<T, MaybeInterrupted<E>>>) {
        match self.future.poll(now) {
            Poll::Ready(v) => {
                match v {
                    Ok(t) => Poll::Ready(Ok(t)),
                    Err(i) => Poll::Ready(Err(i.into_interrupt())),
                }
            },
            Poll::Pending => Poll::Pending,
        }
    }

    fn ready_time(&self) -> (r: Option<u64>) {
        self.future.ready_time()
    }
}

} // verus!
