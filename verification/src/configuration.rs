//! Support for common configuration behaviour: a configuration is a typed
//! value loaded from an options container.

use core::marker::PhantomData;

use vstd::prelude::*;

verus! {

/// Common behaviour of configurations.
pub trait Configuration {
    /// The options container consumed while loading.
    type Opts;

    /// The value produced by loading.
    type Result;

    /// The value loading yields for the given options.
    spec fn spec_load(opts: Self::Opts) -> Self::Result;

    /// Load the configuration.
    fn load(opts: Self::Opts) -> (r: Self::Result)
        ensures
            r == Self::spec_load(opts),
    ;
}

/// A configuration that can be loaded without further parameters.
pub trait EasyConfiguration {
    /// The value produced by loading.
    type Result;

    /// Load the configuration.
    fn load() -> Self::Result;
}

/// Every configuration whose options container has a default value can be
/// loaded without further parameters.
impl<C: Configuration> EasyConfiguration for C where C::Opts: Default {
    type Result = C::Result;

    fn load() -> Self::Result {
        C::load(<C::Opts as Default>::default())
    }
}

/// Direct configuration: loading just returns the passed value. Useful in
/// testing scenarios.
pub struct DirectConfiguration<T> {
    value: PhantomData<T>,
}

impl<T> Configuration for DirectConfiguration<T> {
    type Opts = T;

    type Result = T;

    open spec fn spec_load(opts: T) -> T {
        opts
    }

    fn load(opts: T) -> (r: T) {
        opts
    }
}

/// Options accepted by a configuration loaded from a JSON document.
pub enum JsonConfigurationOpts {
    /// Load the document from the file at this path.
    File(String),
}

} // verus!
