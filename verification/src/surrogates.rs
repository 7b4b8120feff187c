//! A conversion helper for emitting interop for types you do not own: a
//! caller-supplied local type stands in for the foreign one, and the pair
//! is validated by an explicit marker trait instead of an unchecked cast.

use vstd::prelude::*;

verus! {

/// A marker trait asserting that the implementing type is a layout-correct
/// stand-in for `T`. The claim is the implementer's obligation; the
/// verified code below only ever reads the carried `T` itself.
pub trait CorrectSurrogate<T> {

}

/// Carries a foreign `T` through an interface described by the local
/// stand-in type `L`.
pub struct Surrogate<T, L> {
    /// The carried foreign value.
    pub inner: T,
    /// Pins the local stand-in type.
    pub marker: core::marker::PhantomData<L>,
}

impl<T, L: CorrectSurrogate<T>> Surrogate<T, L> {
    /// Wraps a foreign value.
    pub fn new(inner: T) -> (r: Self)
        ensures
            r.inner == inner,
    {
        Surrogate { inner, marker: core::marker::PhantomData }
    }

    /// Views the value as a `T`.
    pub fn as_t(&self) -> (r: &T)
        ensures
            *r == self.inner,
    {
        &self.inner
    }

    /// Views the value mutably as a `T`.
    pub fn as_t_mut(&mut self) -> (r: &mut T)
        ensures
            *r == old(self).inner,
            final(self).inner == *final(r),
    {
        &mut self.inner
    }

    /// Converts into the carried `T`.
    pub fn into_t(self) -> (r: T)
        ensures
            r == self.inner,
    {
        self.inner
    }
}

} // verus!
