//! Support for singletons: a process-wide value that is initialized at
//! most once and then used through callbacks holding a shared or an
//! exclusive borrow.

use vstd::prelude::*;

verus! {

/// Error returned when a singleton is initialized a second time.
#[derive(Clone, Copy, Debug, PartialEq, Eq, Structural)]
pub struct AlreadyInitialized;

/// A function that uses a singleton through a shared borrow.
pub trait SingletonFn<I, R>: Sized {
    /// The value the call yields for a given inner value.
    spec fn spec_call(self, inner: I) -> R;

    /// Run the function on the singleton's inner value.
    fn call_once(self, inner: &I) -> (r: R)
        ensures
            r == self.spec_call(*inner),
    ;
}

/// A function that uses a singleton through a shared borrow and consumes
/// an argument.
pub trait SingletonFnWithArg<I, A, R>: Sized {
    /// The value the call yields for a given inner value and argument.
    spec fn spec_call(self, inner: I, arg: A) -> R;

    /// Run the function on the singleton's inner value.
    fn call_once(self, inner: &I, arg: A) -> (r: R)
        ensures
            r == self.spec_call(*inner, arg),
    ;
}

/// A function that uses a singleton through an exclusive borrow.
pub trait SingletonFnMut<I, R>: Sized {
    /// The updated inner value and the result of the call.
    spec fn spec_call(self, inner: I) -> (I, R);

    /// Run the function on the singleton's inner value.
    fn call_once(self, inner: &mut I) -> (r: R)
        ensures
            (*final(inner), r) == self.spec_call(*old(inner)),
    ;
}

/// A function that uses a singleton through an exclusive borrow and
/// consumes an argument.
pub trait SingletonFnMutWithArg<I, A, R>: Sized {
    /// The updated inner value and the result of the call.
    spec fn spec_call(self, inner: I, arg: A) -> (I, R);

    /// Run the function on the singleton's inner value.
    fn call_once(self, inner: &mut I, arg: A) -> (r: R)
        ensures
            (*final(inner), r) == self.spec_call(*old(inner), arg),
    ;
}

/// A singleton: a process-wide value owned by the implementing type.
/// Storage and locking are the implementer's business; this crate only
/// fixes the shape of the operations.
pub trait Singleton {
    /// Inner value contained by the singleton.
    type Inner;

    /// Initialize the singleton. Fails if it was already initialized.
    fn init_singleton(inner: Self::Inner) -> Result<(), AlreadyInitialized>;

    /// Use the singleton with a shared borrow.
    fn use_singleton<F, R>(clojure: F) -> R where F: SingletonFn<Self::Inner, R>;

    /// Use the singleton with a shared borrow and an argument.
    fn use_singleton_with_arg<F, A, R>(clojure: F, arg: A) -> R where F: SingletonFnWithArg<
        Self::Inner,
        A,
        R,
    >;

    /// Use the singleton with an exclusive borrow.
    fn use_mut_singleton<F, R>(clojure: F) -> R where F: SingletonFnMut<Self::Inner, R>;

    /// Use the singleton with an exclusive borrow and an argument.
    fn use_mut_singleton_with_arg<F, A, R>(clojure: F, arg: A) -> R where F: SingletonFnMutWithArg<
        Self::Inner,
        A,
        R,
    >;
}

/// The storage cell backing a singleton: a value can be stored exactly
/// once, and is then used in place.
pub struct SingletonCell<T> {
    inner: Option<T>,
}

impl<T> SingletonCell<T> {
    /// The stored value, if any.
    pub closed spec fn spec_value(&self) -> Option<T> {
        self.inner
    }

    /// An empty cell.
    pub fn new() -> (r: SingletonCell<T>)
        ensures
            r.spec_value() is None,
    {
        SingletonCell { inner: None }
    }

    /// Store the value. Fails, discarding the value, if the cell is
    /// already occupied.
    pub fn init(&mut self, value: T) -> (r: Result<(), AlreadyInitialized>)
        ensures
            old(self).spec_value() is None ==> r is Ok && final(self).spec_value() == Some(value),
            old(self).spec_value() is Some ==> r is Err && final(self).spec_value() == old(
                self,
            ).spec_value(),
    {
        match &self.inner {
            None => {
                self.inner = Some(value);
                Ok(())
            },
            Some(_) => Err(AlreadyInitialized),
        }
    }

    /// Run a function on the stored value through a shared borrow.
    pub fn use_value<R, F: SingletonFn<T, R>>(&self, clojure: F) -> (r: R)
        requires
            self.spec_value() is Some,
        ensures
            r == clojure.spec_call(self.spec_value()->0),
    {
        match &self.inner {
            Some(v) => clojure.call_once(v),
            None => unreached(),
        }
    }

    /// Run a function on the stored value through an exclusive borrow.
    pub fn use_value_mut<R, F: SingletonFnMut<T, R>>(&mut self, clojure: F) -> (r: R)
        requires
            old(self).spec_value() is Some,
        ensures
            (final(self).spec_value()->0, r) == clojure.spec_call(old(self).spec_value()->0),
            final(self).spec_value() is Some,
    {
        match &mut self.inner {
            Some(v) => clojure.call_once(v),
            None => unreached(),
        }
    }
}

} // verus!
