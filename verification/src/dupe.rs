//! A cheap `clone`.

use vstd::prelude::*;

verus! {

/// Like `Clone`, for types whose copy costs a constant amount of work and no
/// allocation: `dupe` says at the place of the call that the copy is cheap.
pub trait Dupe: Clone {
    /// A copy of `self`, made as `clone` makes it.
    fn dupe(&self) -> (r: Self)
        default_ensures
            call_ensures(Self::clone, (self,), r),
    {
        self.clone()
    }
}

/// Whether `b` is something that `dupe` may return for `a`.
pub open spec fn duped<T: Dupe>(a: T, b: T) -> bool {
    call_ensures(T::dupe, (&a,), b)
}

impl Dupe for bool {
}

impl Dupe for char {
}

impl Dupe for u8 {
}

impl Dupe for u16 {
}

impl Dupe for u32 {
}

impl Dupe for u64 {
}

impl Dupe for u128 {
}

impl Dupe for usize {
}

impl Dupe for i8 {
}

impl Dupe for i16 {
}

impl Dupe for i32 {
}

impl Dupe for i64 {
}

impl Dupe for i128 {
}

impl Dupe for isize {
}

impl<A: ?Sized> Dupe for &A {
}

impl<A: ?Sized> Dupe for std::rc::Rc<A> {
}

impl<A: ?Sized> Dupe for std::sync::Arc<A> {
}

} // verus!
