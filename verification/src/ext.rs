//! Fluent, zero-cost attachment operations exposed on any computation, so
//! wrappers can be composed without naming their types.

use vstd::prelude::*;

use crate::awaitable::race_outcome;
use crate::awaitable::ready_min;
use crate::awaitable::Awaitable;
use crate::cancel::Cancel;
use crate::cancel::CancelChannelFuture;
use crate::cancel::CancelHandle;
use crate::cancel::CancelTarget;
use crate::cancel::Canceled;
use crate::cancel::TryCancel;
use crate::error::try_race_outcome;
use crate::error::MayInterrupt;
use crate::error::MaybeInterrupted;
use crate::flatten_interrupt::flatten_once;
use crate::flatten_interrupt::TryFlattenInterrupt;
use crate::timeout::sat_add;
use crate::timeout::Deadline;
use crate::timeout::TimedOut;
use crate::timeout::Timeout;
use crate::timeout::TryDeadline;
use crate::timeout::TryTimeout;

verus! {

/// Restricts the extension surface to awaitable computations.
pub trait Sealed {}

impl<A: Awaitable> Sealed for A {

}

/// Fluent attachment operations for any computation.
pub trait BlockzFutureExt: Awaitable + Sealed {
    /// Wrap this computation with a fresh one-shot signal channel and hand
    /// out a cancel handle for it.
    fn cancel(self) -> (r: (Cancel<Self, CancelChannelFuture>, CancelHandle))
        requires
            self.inv(),
            !self.is_done(),
        ensures
            r.0.inv(),
            !r.0.is_done(),
            r.0.channel_open(),
            !r.1.is_spent(),
            r.0.ready_at() == self.ready_at(),
            forall|n: u64| #[trigger]
                r.0.result_at(n) == race_outcome(self.ready_at(), self.result_at(n), Canceled, n),
    ;

    /// Wrap this computation with an arbitrary cancel source.
    fn with_cancel<C: Awaitable<Output = ()>>(self, cancel: C) -> (r: Cancel<Self, C>)
        requires
            self.inv(),
            !self.is_done(),
            cancel.inv(),
            !cancel.is_done(),
        ensures
            r.inv(),
            !r.is_done(),
            r.ready_at() == ready_min(self.ready_at(), cancel.ready_at()),
            forall|n: u64| #[trigger]
                r.result_at(n) == race_outcome(self.ready_at(), self.result_at(n), Canceled, n),
    ;

    /// Wrap this computation with an existing one-shot channel.
    fn with_cancel_channel(self, cancel: CancelChannelFuture) -> (r: Cancel<
        Self,
        CancelChannelFuture,
    >)
        requires
            self.inv(),
            !self.is_done(),
            cancel.inv(),
            !cancel.is_done(),
        ensures
            r.inv(),
            !r.is_done(),
            r.channel_open() == (cancel.ready_at() is None),
            r.ready_at() == ready_min(self.ready_at(), cancel.ready_at()),
            forall|n: u64| #[trigger]
                r.result_at(n) == race_outcome(self.ready_at(), self.result_at(n), Canceled, n),
    ;

    /// Wrap this computation with a timer armed for the absolute instant
    /// `deadline`.
    fn deadline(self, deadline: u64) -> (r: Deadline<Self>)
        requires
            self.inv(),
            !self.is_done(),
        ensures
            r.inv(),
            !r.is_done(),
            r.spec_future() == self,
            r.spec_deadline() == deadline,
            r.ready_at() == ready_min(self.ready_at(), Some(deadline)),
            forall|n: u64| #[trigger]
                r.result_at(n) == race_outcome(self.ready_at(), self.result_at(n), TimedOut, n),
    ;

    /// Wrap this computation with a timer armed at instant `now` for a
    /// relative `timeout`.
    fn timeout(self, timeout: u64, now: u64) -> (r: Timeout<Self>)
        requires
            self.inv(),
            !self.is_done(),
        ensures
            r.inv(),
            !r.is_done(),
            r.spec_future() == self,
            r.spec_expires() == sat_add(now, timeout),
            r.ready_at() == ready_min(self.ready_at(), Some(sat_add(now, timeout))),
            forall|n: u64| #[trigger]
                r.result_at(n) == race_outcome(self.ready_at(), self.result_at(n), TimedOut, n),
    ;
}

impl<A: Awaitable> BlockzFutureExt for A {
    fn cancel(self) -> (r: (Cancel<Self, CancelChannelFuture>, CancelHandle)) {
        Cancel::new(self)
    }

    fn with_cancel<C: Awaitable<Output = ()>>(self, cancel: C) -> (r: Cancel<Self, C>) {
        Cancel::with_cancel(self, cancel)
    }

    fn with_cancel_channel(self, cancel: CancelChannelFuture) -> (r: Cancel<
        Self,
        CancelChannelFuture,
    >) {
        Cancel::with_cancel_channel(self, cancel)
    }

    fn deadline(self, deadline: u64) -> (r: Deadline<Self>) {
        Deadline::new(self, deadline)
    }

    fn timeout(self, timeout: u64, now: u64) -> (r: Timeout<Self>) {
        Timeout::new(self, timeout, now)
    }
}

/// Fluent attachment operations for fallible computations: the produced
/// wrappers keep the computation's own failure apart from the interrupt.
pub trait BlockzTryFutureExt<T, E>: Awaitable<Output = Result<T, E>> + Sealed {
    /// Wrap this fallible computation with a fresh one-shot signal channel
    /// and hand out a cancel handle for it.
    fn try_cancel(self) -> (r: (TryCancel<Self, CancelChannelFuture>, CancelHandle))
        requires
            self.inv(),
            !self.is_done(),
        ensures
            r.0.inv(),
            !r.0.is_done(),
            r.0.channel_open(),
            !r.1.is_spent(),
            r.0.ready_at() == self.ready_at(),
            forall|n: u64| #[trigger]
                r.0.result_at(n) == try_race_outcome(
                    self.ready_at(),
                    self.result_at(n),
                    MaybeInterrupted::Canceled(Canceled),
                    n,
                ),
    ;

    /// Wrap this fallible computation with an arbitrary cancel source.
    fn try_with_cancel<C: Awaitable<Output = ()>>(self, cancel: C) -> (r: TryCancel<Self, C>)
        requires
            self.inv(),
            !self.is_done(),
            cancel.inv(),
            !cancel.is_done(),
        ensures
            r.inv(),
            !r.is_done(),
            r.ready_at() == ready_min(self.ready_at(), cancel.ready_at()),
            forall|n: u64| #[trigger]
                r.result_at(n) == try_race_outcome(
                    self.ready_at(),
                    self.result_at(n),
                    MaybeInterrupted::Canceled(Canceled),
                    n,
                ),
    ;

    /// Wrap this fallible computation with an existing one-shot channel.
    fn try_with_cancel_channel(self, cancel: CancelChannelFuture) -> (r: TryCancel<
        Self,
        CancelChannelFuture,
    >)
        requires
            self.inv(),
            !self.is_done(),
            cancel.inv(),
            !cancel.is_done(),
        ensures
            r.inv(),
            !r.is_done(),
            r.channel_open() == (cancel.ready_at() is None),
            r.ready_at() == ready_min(self.ready_at(), cancel.ready_at()),
            forall|n: u64| #[trigger]
                r.result_at(n) == try_race_outcome(
                    self.ready_at(),
                    self.result_at(n),
                    MaybeInterrupted::Canceled(Canceled),
                    n,
                ),
    ;

    /// Fold this computation's interrupt-aware error into the flat union.
    fn try_flatten_interrupt<E2>(self) -> (r: TryFlattenInterrupt<Self, E2>) where
        E: MayInterrupt<E2>

        requires
            self.inv(),
            !self.is_done(),
        ensures
            r.inv(),
            !r.is_done(),
            r.spec_future() == self,
            r.ready_at() == self.ready_at(),
            forall|n: u64| #[trigger] r.result_at(n) == flatten_once(self.result_at(n)),
    ;

    /// Wrap this fallible computation with a timer armed for the absolute
    /// instant `deadline`.
    fn try_deadline(self, deadline: u64) -> (r: TryDeadline<Self>)
        requires
            self.inv(),
            !self.is_done(),
        ensures
            r.inv(),
            !r.is_done(),
            r.spec_future() == self,
            r.spec_deadline() == deadline,
            r.ready_at() == ready_min(self.ready_at(), Some(deadline)),
            forall|n: u64| #[trigger]
                r.result_at(n) == try_race_outcome(
                    self.ready_at(),
                    self.result_at(n),
                    MaybeInterrupted::TimedOut(TimedOut),
                    n,
                ),
    ;

    /// Wrap this fallible computation with a timer armed at instant `now`
    /// for a relative `timeout`.
    fn try_timeout(self, timeout: u64, now: u64) -> (r: TryTimeout<Self>)
        requires
            self.inv(),
            !self.is_done(),
        ensures
            r.inv(),
            !r.is_done(),
            r.spec_future() == self,
            r.spec_expires() == sat_add(now, timeout),
            r.ready_at() == ready_min(self.ready_at(), Some(sat_add(now, timeout))),
            forall|n: u64| #[trigger]
                r.result_at(n) == try_race_outcome(
                    self.ready_at(),
                    self.result_at(n),
                    MaybeInterrupted::TimedOut(TimedOut),
                    n,
                ),
    ;
}

impl<T, E, F: Awaitable<Output = Result<T, E>>> BlockzTryFutureExt<T, E> for F {
    fn try_cancel(self) -> (r: (TryCancel<Self, CancelChannelFuture>, CancelHandle)) {
        TryCancel::new(self)
    }

    fn try_with_cancel<C: Awaitable<Output = ()>>(self, cancel: C) -> (r: TryCancel<Self, C>) {
        TryCancel::with_cancel(self, cancel)
    }

    fn try_with_cancel_channel(self, cancel: CancelChannelFuture) -> (r: TryCancel<
        Self,
        CancelChannelFuture,
    >) {
        TryCancel::with_cancel_channel(self, cancel)
    }

    fn try_flatten_interrupt<E2>(self) -> (r: TryFlattenInterrupt<Self, E2>) where
        E: MayInterrupt<E2>
     {
        TryFlattenInterrupt::new(self)
    }

    fn try_deadline(self, deadline: u64) -> (r: TryDeadline<Self>) {
        TryDeadline::new(self, deadline)
    }

    fn try_timeout(self, timeout: u64, now: u64) -> (r: TryTimeout<Self>) {
        TryTimeout::new(self, timeout, now)
    }
}

} // verus!
