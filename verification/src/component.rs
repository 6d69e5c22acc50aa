//! Components: long-lived application parts with a common life cycle.

use vstd::prelude::*;

verus! {

/// A set of operations every component should implement: initialization,
/// start, stop and deinitialization, each consuming its own parameters.
pub trait ComponentExt: Sized {
    /// The inner type returned upon initialization.
    type Inner;

    /// Parameters consumed during initialization.
    type InitParams;

    /// Parameters consumed during the start process.
    type StartParams;

    /// Parameters consumed during the stop process.
    type StopParams;

    /// Parameters consumed during deinitialization.
    type DeinitParams;

    /// Error produced by a failing life cycle operation.
    type Error;

    /// Initialize the component.
    fn init(params: Self::InitParams) -> Result<Self::Inner, Self::Error>;

    /// Start the component.
    fn start(&mut self, params: Self::StartParams) -> Result<(), Self::Error>;

    /// Stop the component.
    fn stop(&mut self, params: Self::StopParams) -> Result<(), Self::Error>;

    /// Deinitialize the component.
    fn deinit(&mut self, params: Self::DeinitParams) -> Result<(), Self::Error>;
}

} // verus!
