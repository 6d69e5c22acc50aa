//! The flat error taxonomy shared by the fallible wrappers: a computation's
//! own failure is never conflated with an interrupt, and the two interrupt
//! kinds are never conflated with each other.

use vstd::prelude::*;

use crate::cancel::Canceled;
use crate::timeout::TimedOut;

verus! {

/// Error returned by a fallible computation that may have been interrupted.
#[derive(Clone, Copy, Debug, PartialEq, Eq)]
pub enum MaybeInterrupted<E> {
    /// The computation itself failed on its own terms.
    Error(E),
    /// An external cancellation signal preempted completion.
    Canceled(Canceled),
    /// A timer preempted completion.
    TimedOut(TimedOut),
}

/// The outcome of a race over a fallible computation observed at instant
/// `now`: the computation's own success or failure if it is ready by then
/// (completion wins a tie), the interrupt otherwise. The computation's
/// failure is kept apart from the interrupt.
pub open spec fn try_race_outcome<T, E>(
    inner_ready: Option<u64>,
    inner_value: Result<T, E>,
    interrupt: MaybeInterrupted<E>,
    now: u64,
) -> Result<T, MaybeInterrupted<E>> {
    if inner_ready matches Some(rt) && rt <= now {
        match inner_value {
            Ok(v) => Ok(v),
            Err(e) => Err(MaybeInterrupted::Error(e)),
        }
    } else {
        Err(interrupt)
    }
}

/// Marker restricting which error types may declare interrupt awareness.
pub trait Sealed {}

impl Sealed for Canceled {

}

impl Sealed for TimedOut {

}

impl<E> Sealed for MaybeInterrupted<E> {

}

/// Capability of an error type to present itself in the flat interrupt
/// taxonomy. The conversion preserves which interrupt kind occurred: a
/// cancellation never turns into a timeout, nor the other way around.
pub trait MayInterrupt<E>: Sealed + Sized {
    /// The flat meaning of this error.
    spec fn as_interrupt(self) -> MaybeInterrupted<E>;

    /// Convert into the flat union.
    fn into_interrupt(self) -> (r: MaybeInterrupted<E>)
        ensures
            r == self.as_interrupt(),
    ;
}

impl<E> MayInterrupt<E> for Canceled {
    open spec fn as_interrupt(self) -> MaybeInterrupted<E> {
        MaybeInterrupted::Canceled(Canceled)
    }

    fn into_interrupt(self) -> (r: MaybeInterrupted<E>) {
        MaybeInterrupted::Canceled(self)
    }
}

impl<E> MayInterrupt<E> for TimedOut {
    open spec fn as_interrupt(self) -> MaybeInterrupted<E> {
        MaybeInterrupted::TimedOut(TimedOut)
    }

    fn into_interrupt(self) -> (r: MaybeInterrupted<E>) {
        MaybeInterrupted::TimedOut(self)
    }
}

impl<E> MayInterrupt<E> for MaybeInterrupted<E> {
    open spec fn as_interrupt(self) -> MaybeInterrupted<E> {
        self
    }

    fn into_interrupt(self) -> (r: MaybeInterrupted<E>) {
        self
    }
}

} // verus!
