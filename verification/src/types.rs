//! Equality of types, as a bound.

use vstd::prelude::*;

verus! {

/// `A: TEq<B>` holds where `A` and `B` are one type. It lets a `where`
/// clause say of a type that is given, such as the item of a collection,
/// that it is a reference, and then use it as one.
pub trait TEq<T>: Sized {
    /// `self`, at the type `T`.
    spec fn teq_spec(self) -> T;

    /// Hands `self` over at the type `T`.
    fn teq(self) -> (r: T)
        ensures
            r == self.teq_spec(),
    ;

    /// A reference to `self` at the type `T`.
    fn teq_ref(&self) -> (r: &T)
        ensures
            *r == (*self).teq_spec(),
    ;
}

impl<T> TEq<T> for T {
    open spec fn teq_spec(self) -> T {
        self
    }

    fn teq(self) -> (r: T) {
        self
    }

    fn teq_ref(&self) -> (r: &T) {
        self
    }
}

} // verus!
