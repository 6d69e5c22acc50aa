//! Computations that can be canceled through a one-shot signal.
//!
//! A [`Cancel`] wrapper races an inner computation against an interrupt
//! source. Within one step the computation is consulted first, so a
//! completion that is ready at the same instant as the interrupt wins the
//! race. The signal side is a single-use channel: [`CancelHandle::cancel`]
//! delivers the signal if and only if the paired wrapper has neither
//! completed nor received a signal before, and it reports whether this very
//! call caused the delivery.

use vstd::prelude::*;

use crate::awaitable::race_outcome;
use crate::awaitable::ready_min;
use crate::awaitable::Awaitable;
use crate::awaitable::eventual_outcome;
use crate::error::try_race_outcome;
use crate::error::MaybeInterrupted;
use crate::poll::Poll;

verus! {

/// Error yielded by a cancelable computation whose interrupt source fired
/// before the computation completed.
#[derive(Clone, Copy, Debug, PartialEq, Eq, Structural)]
pub struct Canceled;

/// The receive half of the one-shot cancellation channel: a computation
/// that becomes ready once the signal has been sent and the clock has
/// reached the sending instant.
pub struct CancelChannelFuture {
    fired_at: Option<u64>,
    done: bool,
}

impl CancelChannelFuture {
    /// A channel on which no signal has been sent yet.
    pub fn new() -> (r: CancelChannelFuture)
        ensures
            r.inv(),
            !r.is_done(),
            r.ready_at() is None,
    {
        CancelChannelFuture { fired_at: None, done: false }
    }

    /// A channel whose signal was already sent at instant `at`.
    pub fn fired(at: u64) -> (r: CancelChannelFuture)
        ensures
            r.inv(),
            !r.is_done(),
            r.ready_at() == Some(at),
    {
        CancelChannelFuture { fired_at: Some(at), done: false }
    }

    /// Accept the signal arriving at instant `now`. The channel is
    /// single-use: delivery succeeds only on a channel that has not carried
    /// a signal before.
    pub fn deliver(&mut self, now: u64) -> (r: bool)
        requires
            old(self).inv(),
        ensures
            final(self).inv(),
            r == (old(self).ready_at() is None),
            final(self).is_done() == old(self).is_done(),
            r ==> final(self).ready_at() == Some(now),
            !r ==> final(self).ready_at() == old(self).ready_at(),
    {
        match self.fired_at {
            None => {
                self.fired_at = Some(now);
                true
            },
            Some(_) => false,
        }
    }
}

impl Awaitable for CancelChannelFuture {
    type Output = ();

    closed spec fn inv(&self) -> bool {
        self.done ==> self.fired_at is Some
    }

    closed spec fn is_done(&self) -> bool {
        self.done
    }

    closed spec fn ready_at(&self) -> Option<u64> {
        self.fired_at
    }

    closed spec fn result_at(&self, now: u64) -> () {
        ()
    }

    fn poll(&mut self, now: u64) -> (r: Poll<()>) {
        match self.fired_at {
            Some(at) => {
                if now >= at {
                    self.done = true;
                    Poll::Ready(())
                } else {
                    Poll::Pending
                }
            },
            None => Poll::Pending,
        }
    }

    fn ready_time(&self) -> (r: Option<u64>) {
        self.fired_at
    }
}

/// A wrapper whose signal channel can still accept a cancellation.
pub trait CancelTarget: Awaitable {
    /// Whether the paired signal channel is still open: the wrapper has not
    /// completed and no signal has been sent yet.
    spec fn channel_open(&self) -> bool;

    /// Accept a cancellation signal arriving at instant `now`. Delivery
    /// succeeds exactly once, and only while the channel is open; it never
    /// changes the planned race outcomes, only the instant at which the
    /// interrupt branch becomes ready.
    fn deliver_cancel(&mut self, now: u64) -> (r: bool)
        requires
            old(self).inv(),
        ensures
            final(self).inv(),
            r == old(self).channel_open(),
            !final(self).channel_open(),
            final(self).is_done() == old(self).is_done(),
            r ==> final(self).ready_at() == ready_min(old(self).ready_at(), Some(now)),
            !r ==> final(self).ready_at() == old(self).ready_at(),
            forall|t: u64| #[trigger] final(self).result_at(t) == old(self).result_at(t),
    ;
}

/// The exclusive owner of the send half of a cancellation channel.
///
/// Delivery is addressed to the wrapper presented to [`CancelHandle::cancel`];
/// the handle created by [`Cancel::new`] is meant to be used with the wrapper
/// returned alongside it.
pub struct CancelHandle {
    spent: bool,
}

impl CancelHandle {
    /// Whether this handle has already attempted a cancellation.
    pub closed spec fn is_spent(&self) -> bool {
        self.spent
    }

    /// Create a fresh handle.
    pub(crate) fn new() -> (h: CancelHandle)
        ensures
            !h.is_spent(),
    {
        CancelHandle { spent: false }
    }

    /// Cancel the computation, delivering the signal at instant `now`.
    ///
    /// Returns `true` iff this very call delivered the signal: the handle
    /// was unused, and the wrapper had neither completed nor already
    /// received a signal. A second call, or a call after the wrapper
    /// completed, reports `false`.
    pub fn cancel<T: CancelTarget>(&mut self, target: &mut T, now: u64) -> (r: bool)
        requires
            old(target).inv(),
        ensures
            final(target).inv(),
            final(self).is_spent(),
            r == (!old(self).is_spent() && old(target).channel_open()),
            final(target).is_done() == old(target).is_done(),
            r ==> final(target).ready_at() == ready_min(old(target).ready_at(), Some(now)),
            !r ==> final(target).ready_at() == old(target).ready_at(),
            forall|t: u64| #[trigger] final(target).result_at(t) == old(target).result_at(t),
    {
        if self.spent {
            false
        } else {
            self.spent = true;
            target.deliver_cancel(now)
        }
    }
}

/// A computation that can be canceled: it races the inner computation
/// against an interrupt source and yields either the computation's value or
/// [`Canceled`].
pub struct Cancel<F, C> {
    future: F,
    cancel: C,
    done: bool,
}

impl<F: Awaitable> Cancel<F, CancelChannelFuture> {
    /// Wrap a computation together with a fresh one-shot signal channel and
    /// hand out the channel's send half.
    pub fn new(future: F) -> (r: (Cancel<F, CancelChannelFuture>, CancelHandle))
        requires
            future.inv(),
            !future.is_done(),
        ensures
            r.0.inv(),
            !r.0.is_done(),
            r.0.channel_open(),
            !r.1.is_spent(),
            r.0.ready_at() == future.ready_at(),
            forall|n: u64| #[trigger]
                r.0.result_at(n) == race_outcome(future.ready_at(), future.result_at(n), Canceled, n),
    {
        let w = Cancel { future, cancel: CancelChannelFuture::new(), done: false };
        (w, CancelHandle::new())
    }

    /// Wrap a computation together with an existing one-shot channel.
    pub fn with_cancel_channel(future: F, cancel: CancelChannelFuture) -> (r: Cancel<
        F,
        CancelChannelFuture,
    >)
        requires
            future.inv(),
            !future.is_done(),
            cancel.inv(),
            !cancel.is_done(),
        ensures
            r.inv(),
            !r.is_done(),
            r.channel_open() == (cancel.ready_at() is None),
            r.ready_at() == ready_min(future.ready_at(), cancel.ready_at()),
            forall|n: u64| #[trigger]
                r.result_at(n) == race_outcome(future.ready_at(), future.result_at(n), Canceled, n),
    {
        Cancel { future, cancel, done: false }
    }
}

impl<F: Awaitable, C: Awaitable<Output = ()>> Cancel<F, C> {
    /// Wrap a computation together with an arbitrary interrupt source: any
    /// computation producing a unit value.
    pub fn with_cancel(future: F, cancel: C) -> (r: Cancel<F, C>)
        requires
            future.inv(),
            !future.is_done(),
            cancel.inv(),
            !cancel.is_done(),
        ensures
            r.inv(),
            !r.is_done(),
            r.ready_at() == ready_min(future.ready_at(), cancel.ready_at()),
            forall|n: u64| #[trigger]
                r.result_at(n) == race_outcome(future.ready_at(), future.result_at(n), Canceled, n),
    {
        Cancel { future, cancel, done: false }
    }
}

impl<F: Awaitable, C: Awaitable<Output = ()>> Awaitable for Cancel<F, C> {
    type Output = Result<F::Output, Canceled>;

    closed spec fn inv(&self) -> bool {
        &&& self.future.inv()
        &&& self.cancel.inv()
        &&& !self.done ==> (!self.future.is_done() && !self.cancel.is_done())
    }

    closed spec fn is_done(&self) -> bool {
        self.done
    }

    closed spec fn ready_at(&self) -> Option<u64> {
        ready_min(self.future.ready_at(), self.cancel.ready_at())
    }

    closed spec fn result_at(&self, now: u64) -> Result<F::Output, Canceled> {
        race_outcome(self.future.ready_at(), self.future.result_at(now), Canceled, now)
    }

    fn poll(&mut self, now: u64) -> (r: Poll<Result<F::Output, Canceled>>) {
        match self.future.poll(now) {
            Poll::Ready(v) => {
                self.done = true;
                Poll::Ready(Ok(v))
            },
            Poll::Pending => {
                match self.cancel.poll(now) {
                    Poll::Ready(_) => {
                        self.done = true;
                        Poll::Ready(Err(Canceled))
                    },
                    Poll::Pending => Poll::Pending,
                }
            },
        }
    }

    fn ready_time(&self) -> (r: Option<u64>) {
        let f = self.future.ready_time();
        let c = self.cancel.ready_time();
        match (f, c) {
            (Some(x), Some(y)) => if x <= y {
                Some(x)
            } else {
                Some(y)
            },
            (Some(x), None) => Some(x),
            (None, Some(y)) => Some(y),
            (None, None) => None,
        }
    }
}

impl<F: Awaitable> CancelTarget for Cancel<F, CancelChannelFuture> {
    closed spec fn channel_open(&self) -> bool {
        !self.done && self.cancel.ready_at() is None
    }

    fn deliver_cancel(&mut self, now: u64) -> (r: bool) {
        if self.done {
            false
        } else {
            self.cancel.deliver(now)
        }
    }
}

/// A cancellation that is delivered strictly before the inner computation's
/// natural completion settles the race on `Canceled`.
pub proof fn lemma_cancel_preempts_completion<F: Awaitable, C: Awaitable<Output = ()>>(
    w: Cancel<F, C>,
    s: u64,
)
    requires
        w.spec_cancel().ready_at() == Some(s),
        w.spec_future().ready_at() matches Some(ft) ==> s < ft,
    ensures
        w.ready_at() == Some(s),
        eventual_outcome(w) == Some(Err::<F::Output, Canceled>(Canceled)),
{
}

/// A computation that is ready no later than the interrupt source settles
/// the race on its own value: completion wins the tie.
pub proof fn lemma_completion_beats_cancel<F: Awaitable, C: Awaitable<Output = ()>>(
    w: Cancel<F, C>,
    ft: u64,
)
    requires
        w.spec_future().ready_at() == Some(ft),
        w.spec_cancel().ready_at() matches Some(s) ==> ft <= s,
    ensures
        w.ready_at() == Some(ft),
        eventual_outcome(w) == Some(Ok::<F::Output, Canceled>(w.spec_future().result_at(ft))),
{
}

/// Once the wrapper has completed, its signal channel is closed, so a later
/// cancellation reports that it had no effect.
pub proof fn lemma_cancel_after_completion<F: Awaitable>(w: Cancel<F, CancelChannelFuture>)
    requires
        w.is_done(),
    ensures
        !w.channel_open(),
{
}

impl<F, C> Cancel<F, C> {
    /// The wrapped computation, as a model value.
    pub closed spec fn spec_future(&self) -> F {
        self.future
    }

    /// The interrupt source, as a model value.
    pub closed spec fn spec_cancel(&self) -> C {
        self.cancel
    }
}

/// The model of a cancellation race, in terms of its two racers: it is
/// ready as soon as either racer is, and its outcome at any instant is the
/// race outcome with the completion-wins tie-break.
pub proof fn lemma_cancel_model<F: Awaitable, C: Awaitable<Output = ()>>(w: Cancel<F, C>, n: u64)
    ensures
        w.ready_at() == ready_min(w.spec_future().ready_at(), w.spec_cancel().ready_at()),
        w.result_at(n) == race_outcome(
            w.spec_future().ready_at(),
            w.spec_future().result_at(n),
            Canceled,
            n,
        ),
{
}

/// A fallible computation that can be canceled: it races the inner
/// computation against an interrupt source and keeps the computation's own
/// failure apart from the interrupt.
pub struct TryCancel<F, C> {
    future: F,
    cancel: C,
    done: bool,
}

impl<F, C> TryCancel<F, C> {
    /// The wrapped computation, as a model value.
    pub closed spec fn spec_future(&self) -> F {
        self.future
    }

    /// The interrupt source, as a model value.
    pub closed spec fn spec_cancel(&self) -> C {
        self.cancel
    }
}

impl<T, E, F: Awaitable<Output = Result<T, E>>> TryCancel<F, CancelChannelFuture> {
    /// Wrap a fallible computation together with a fresh one-shot signal
    /// channel and hand out the channel's send half.
    pub fn new(future: F) -> (r: (TryCancel<F, CancelChannelFuture>, CancelHandle))
        requires
            future.inv(),
            !future.is_done(),
        ensures
            r.0.inv(),
            !r.0.is_done(),
            r.0.channel_open(),
            !r.1.is_spent(),
            r.0.ready_at() == future.ready_at(),
            forall|n: u64| #[trigger]
                r.0.result_at(n) == try_race_outcome(
                    future.ready_at(),
                    future.result_at(n),
                    MaybeInterrupted::Canceled(Canceled),
                    n,
                ),
    {
        let w = TryCancel { future, cancel: CancelChannelFuture::new(), done: false };
        (w, CancelHandle::new())
    }

    /// Wrap a fallible computation together with an existing one-shot
    /// channel.
    pub fn with_cancel_channel(future: F, cancel: CancelChannelFuture) -> (r: TryCancel<
        F,
        CancelChannelFuture,
    >)
        requires
            future.inv(),
            !future.is_done(),
            cancel.inv(),
            !cancel.is_done(),
        ensures
            r.inv(),
            !r.is_done(),
            r.channel_open() == (cancel.ready_at() is None),
            r.ready_at() == ready_min(future.ready_at(), cancel.ready_at()),
            forall|n: u64| #[trigger]
                r.result_at(n) == try_race_outcome(
                    future.ready_at(),
                    future.result_at(n),
                    MaybeInterrupted::Canceled(Canceled),
                    n,
                ),
    {
        TryCancel { future, cancel, done: false }
    }
}

impl<T, E, F: Awaitable<Output = Result<T, E>>, C: Awaitable<Output = ()>> TryCancel<F, C> {
    /// Wrap a fallible computation together with an arbitrary interrupt
    /// source.
    pub fn with_cancel(future: F, cancel: C) -> (r: TryCancel<F, C>)
        requires
            future.inv(),
            !future.is_done(),
            cancel.inv(),
            !cancel.is_done(),
        ensures
            r.inv(),
            !r.is_done(),
            r.ready_at() == ready_min(future.ready_at(), cancel.ready_at()),
            forall|n: u64| #[trigger]
                r.result_at(n) == try_race_outcome(
                    future.ready_at(),
                    future.result_at(n),
                    MaybeInterrupted::Canceled(Canceled),
                    n,
                ),
    {
        TryCancel { future, cancel, done: false }
    }
}

impl<T, E, F: Awaitable<Output = Result<T, E>>, C: Awaitable<Output = ()>> Awaitable for TryCancel<
    F,
    C,
> {
    type Output = Result<T, MaybeInterrupted<E>>;

    closed spec fn inv(&self) -> bool {
        &&& self.future.inv()
        &&& self.cancel.inv()
        &&& !self.done ==> (!self.future.is_done() && !self.cancel.is_done())
    }

    closed spec fn is_done(&self) -> bool {
        self.done
    }

    closed spec fn ready_at(&self) -> Option<u64> {
        ready_min(self.future.ready_at(), self.cancel.ready_at())
    }

    closed spec fn result_at(&self, now: u64) -> Result<T, MaybeInterrupted<E>> {
        try_race_outcome(
            self.future.ready_at(),
            self.future.result_at(now),
            MaybeInterrupted::Canceled(Canceled),
            now,
        )
    }

    fn poll(&mut self, now: u64) -> (r: Poll<Result<T, MaybeInterrupted<E>>>) {
        match self.future.poll(now) {
            Poll::Ready(v) => {
                self.done = true;
                match v {
                    Ok(t) => Poll::Ready(Ok(t)),
                    Err(e) => Poll::Ready(Err(MaybeInterrupted::Error(e))),
                }
            },
            Poll::Pending => {
                match self.cancel.poll(now) {
                    Poll::Ready(_) => {
                        self.done = true;
                        Poll::Ready(Err(MaybeInterrupted::Canceled(Canceled)))
                    },
                    Poll::Pending => Poll::Pending,
                }
            },
        }
    }

    fn ready_time(&self) -> (r: Option<u64>) {
        let f = self.future.ready_time();
        let c = self.cancel.ready_time();
        match (f, c) {
            (Some(x), Some(y)) => if x <= y {
                Some(x)
            } else {
                Some(y)
            },
            (Some(x), None) => Some(x),
            (None, Some(y)) => Some(y),
            (None, None) => None,
        }
    }
}

impl<T, E, F: Awaitable<Output = Result<T, E>>> CancelTarget for TryCancel<
    F,
    CancelChannelFuture,
> {
    closed spec fn channel_open(&self) -> bool {
        !self.done && self.cancel.ready_at() is None
    }

    fn deliver_cancel(&mut self, now: u64) -> (r: bool) {
        if self.done {
            false
        } else {
            self.cancel.deliver(now)
        }
    }
}

} // verus!
