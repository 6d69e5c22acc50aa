//! An adapter that collapses a stack of interrupt wrappers into one flat
//! error.

use vstd::prelude::*;

use crate::awaitable::ready_by;
use crate::awaitable::Awaitable;
use crate::cancel::lemma_cancel_model;
use crate::cancel::Cancel;
use crate::cancel::Canceled;
use crate::error::MayInterrupt;
use crate::error::MaybeInterrupted;
use crate::poll::Poll;
use crate::timeout::lemma_try_timeout_model;
use crate::timeout::TimedOut;
use crate::timeout::TryTimeout;

verus! {

/// The flat meaning of a nested outcome produced by stacking an interrupt
/// wrapper on top of an already-flat fallible race: the outer interrupt is
/// unwrapped into the flat union, the inner outcome is kept as it is.
pub open spec fn flatten_nested<T, E, I: MayInterrupt<E>>(
    v: Result<Result<T, MaybeInterrupted<E>>, I>,
) -> Result<T, MaybeInterrupted<E>> {
    match v {
        Ok(inner) => match inner {
            Ok(t) => Ok(t),
            Err(mi) => Err(mi),
        },
        Err(i) => Err(i.as_interrupt()),
    }
}

/// A computation whose outcome is nested by one extra interrupt wrapper,
/// collapsed into a single flat error. The collapse preserves which
/// interrupt variant occurred; it never coalesces a cancellation with a
/// timeout.
pub struct FlattenInterrupts<F> {
    future: F,
}

impl<F> FlattenInterrupts<F> {
    /// The wrapped computation, as a model value.
    pub closed spec fn spec_future(&self) -> F {
        self.future
    }
}

impl<T, E, I, F: Awaitable<Output = Result<Result<T, MaybeInterrupted<E>>, I>>> FlattenInterrupts<
    F,
> where I: MayInterrupt<E> {
    /// Collapse the nested outcome of `future` into one flat error.
    pub fn new(future: F) -> (r: FlattenInterrupts<F>)
        requires
            future.inv(),
            !future.is_done(),
        ensures
            r.inv(),
            !r.is_done(),
            r.spec_future() == future,
            r.ready_at() == future.ready_at(),
            forall|n: u64| #[trigger] r.result_at(n) == flatten_nested(future.result_at(n)),
    {
        FlattenInterrupts { future }
    }
}

impl<T, E, I, F: Awaitable<Output = Result<Result<T, MaybeInterrupted<E>>, I>>> Awaitable for FlattenInterrupts<
    F,
> where I: MayInterrupt<E> {
    type Output = Result<T, MaybeInterrupted<E>>;

    closed spec fn inv(&self) -> bool {
        self.future.inv()
    }

    closed spec fn is_done(&self) -> bool {
        self.future.is_done()
    }

    closed spec fn ready_at(&self) -> Option<u64> {
        self.future.ready_at()
    }

    closed spec fn result_at(&self, now: u64) -> Result<T, MaybeInterrupted<E>> {
        flatten_nested(self.future.result_at(now))
    }

    fn poll(&mut self, now: u64) -> (r: Poll<Result<T, MaybeInterrupted<E>>>) {
        match self.future.poll(now) {
            Poll::Ready(v) => {
                match v {
                    Ok(inner) => match inner {
                        Ok(t) => Poll::Ready(Ok(t)),
                        Err(mi) => Poll::Ready(Err(mi)),
                    },
                    Err(i) => Poll::Ready(Err(i.into_interrupt())),
                }
            },
            Poll::Pending => Poll::Pending,
        }
    }

    fn ready_time(&self) -> (r: Option<u64>) {
        self.future.ready_time()
    }
}

/// Stacking a timer race inside a cancellation race and collapsing the
/// nest yields, at every instant, exactly one flat outcome, and each
/// interrupt source keeps its own variant: the computation's own success
/// or failure if it is ready, the timeout if only the timer is due, the
/// cancellation otherwise.
pub proof fn lemma_stacked_interrupts_flatten<
    T,
    E,
    F: Awaitable<Output = Result<T, E>>,
    C: Awaitable<Output = ()>,
>(w: FlattenInterrupts<Cancel<TryTimeout<F>, C>>, n: u64)
    ensures
        ({
            let f = w.spec_future().spec_future().spec_future();
            let expires = w.spec_future().spec_future().spec_expires();
            w.result_at(n) == if ready_by(f.ready_at(), n) {
                match f.result_at(n) {
                    Ok(v) => Ok::<T, MaybeInterrupted<E>>(v),
                    Err(e) => Err::<T, MaybeInterrupted<E>>(MaybeInterrupted::Error(e)),
                }
            } else if expires <= n {
                Err::<T, MaybeInterrupted<E>>(MaybeInterrupted::TimedOut(TimedOut))
            } else {
                Err::<T, MaybeInterrupted<E>>(MaybeInterrupted::Canceled(Canceled))
            }
        }),
{
    let g = w.spec_future();
    let tt = g.spec_future();
    lemma_cancel_model(g, n);
    lemma_try_timeout_model(tt, n);
}

} // verus!
