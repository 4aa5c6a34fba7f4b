use core::marker::PhantomData;
use vstd::prelude::*;

verus! {

/// A type that can hand out a builder that returns the finished value itself.
pub trait Builder: Sized {
    type Builder;

    fn builder() -> Self::Builder;
}

/// A type whose builder hands the finished value to a continuation.
pub trait BuilderWithCallback<F: Callback<Self>>: Sized {
    type CallbackBuilder;

    fn builder_with_callback(callback: F) -> Self::CallbackBuilder;
}

/// A single-use continuation that consumes a finished value.
pub trait Callback<T> {
    type Output;

    /// Whether the continuation accepts `this`.
    spec fn accepts(&self, this: T) -> bool;

    /// Whether `r` is what the continuation gives for `this`.
    spec fn gives(&self, this: T, r: Self::Output) -> bool;

    fn callback(self, this: T) -> (r: Self::Output)
        requires
            self.accepts(this),
        ensures
            self.gives(this, r),
    ;
}

/// The continuation that returns the finished value unchanged.
pub struct Identity;

impl<T> Callback<T> for Identity {
    type Output = T;

    open spec fn accepts(&self, this: T) -> bool {
        true
    }

    open spec fn gives(&self, this: T, r: T) -> bool {
        r == this
    }

    fn callback(self, this: T) -> (r: T) {
        this
    }
}

impl<F, I, O> Callback<I> for F where F: FnOnce(I) -> O {
    type Output = O;

    open spec fn accepts(&self, this: I) -> bool {
        call_requires(*self, (this,))
    }

    open spec fn gives(&self, this: I, r: O) -> bool {
        call_ensures(*self, (this,), r)
    }

    fn callback(self, this: I) -> (r: O) {
        self(this)
    }
}

impl<T> Builder for T where T: BuilderWithCallback<Identity> {
    type Builder = <T as BuilderWithCallback<Identity>>::CallbackBuilder;

    fn builder() -> Self::Builder {
        T::builder_with_callback(Identity)
    }
}

/// The state of a field that has not been set: no data, only the field's type.
pub struct NoData<T>(PhantomData<T>);

impl<T> NoData<T> {
    /// The one value of the marker.
    pub closed spec fn marker() -> NoData<T> {
        NoData(PhantomData)
    }

    pub fn new() -> (r: Self)
        ensures
            r == Self::marker(),
    {
        NoData(PhantomData)
    }
}

impl<T> Default for NoData<T> {
    fn default() -> (r: Self)
        ensures
            r == Self::marker(),
    {
        NoData(PhantomData)
    }
}

/// Resolves the state of a field to its value when the builder finishes.
pub trait OrDefault<T> where T: Sized {
    /// Whether `r` is what this state resolves to.
    spec fn resolves_to(&self, r: T) -> bool;

    fn or_default(self) -> (r: T)
        ensures
            self.resolves_to(r),
    ;
}

/// A field that was set resolves to its own value.
impl<T> OrDefault<T> for T where T: Sized {
    open spec fn resolves_to(&self, r: T) -> bool {
        r == *self
    }

    fn or_default(self) -> (r: T) {
        self
    }
}

/// A field that was never set resolves to its type's default.
impl<T> OrDefault<T> for NoData<T> where T: Default {
    open spec fn resolves_to(&self, r: T) -> bool {
        call_ensures(T::default, (), r)
    }

    fn or_default(self) -> (r: T) {
        T::default()
    }
}

} // verus!
