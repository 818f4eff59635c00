//! Additions to the `Ref` mechanism of `std::cell`.

use std::cell::Ref;
use std::cmp::Ordering;
use std::hash::Hash;
use std::hash::Hasher;
use std::ops::Deref;
use vstd::prelude::*;
use vstd::std_specs::cmp::PartialEqSpec;
use vstd::std_specs::cmp::PartialEqSpecImpl;
use vstd::std_specs::cmp::PartialOrdSpec;
use vstd::std_specs::cmp::PartialOrdSpecImpl;

verus! {

/// `std::cell::Ref`: a shared borrow that a `RefCell` has handed out and
/// counts until it is dropped.
#[verifier::external_type_specification]
#[verifier::external_body]
#[verifier::reject_recursive_types(T)]
pub struct ExRef<'b, T: ?Sized>(std::cell::Ref<'b, T>);

/// The value that the borrow `r` gives access to: what its `deref` hands
/// out. It is a name for that result and nothing is proved of it. While `r`
/// lives the cell lets nobody write, so it is one value for the whole life of
/// `r`.
pub closed spec fn ref_target<'r, 'b, T: ?Sized>(r: &'r std::cell::Ref<'b, T>) -> &'r T {
    vstd::pervasive::arbitrary::<spec_fn(&std::cell::Ref<'b, T>) -> &T>()(r)
}

/// `Ref`'s `deref` hands out the borrowed value.
pub assume_specification<'b, T: ?Sized, 'r>[ <std::cell::Ref<'b, T> as std::ops::Deref>::deref ](
    r: &'r std::cell::Ref<'b, T>,
) -> (t: &'r T)
    ensures
        t == ref_target(r),
;

/// `Ref::clone` makes a second borrow of the same value.
pub assume_specification<'b, T: ?Sized>[ std::cell::Ref::<'b, T>::clone ](
    orig: &std::cell::Ref<'b, T>,
) -> (r: std::cell::Ref<'b, T>)
    ensures
        ref_target(&r) == ref_target(orig),
;

/// `Ref::map` calls `f` once, on the borrowed value, and the new borrow
/// gives access to what `f` returned.
#[verifier::external_body]
fn ref_map<'b, T: ?Sized, U: ?Sized, F>(orig: Ref<'b, T>, f: F) -> (r: Ref<'b, U>) where
    F: FnOnce(&T) -> &U,

    requires
        f.requires((ref_target(&orig),)),
    ensures
        f.ensures((ref_target(&orig),), ref_target(&r)),
{
    Ref::map(orig, f)
}

/// `Ref::map_split` calls `f` once, on the borrowed value, and the two new
/// borrows give access to the two parts that `f` returned.
pub assume_specification<'b, T: ?Sized, U: ?Sized, V: ?Sized, F>[ std::cell::Ref::<
    'b,
    T,
>::map_split ](
    orig: std::cell::Ref<'b, T>,
    f: F,
) -> (r: (std::cell::Ref<'b, U>, std::cell::Ref<'b, V>)) where F: FnOnce(&T) -> (&U, &V)
    requires
        f.requires((ref_target(&orig),)),
    ensures
        f.ensures((ref_target(&orig),), (ref_target(&r.0), ref_target(&r.1))),
;

/// A `Ref` that might not actually be borrowed from a cell: either a `Ptr`
/// (a normal `&` reference) or a `Ref` (as a `RefCell` hands them out), with
/// the methods that `Ref` has.
#[derive(Debug)]
#[verifier::reject_recursive_types(T)]
pub struct ARef<'a, T: ?Sized + 'a>(ARefInner<'a, T>);

/// The two forms of an [`ARef`].
#[derive(Debug)]
#[verifier::reject_recursive_types(T)]
pub enum ARefInner<'a, T: ?Sized + 'a> {
    Ptr(&'a T),
    Ref(Ref<'a, T>),
}

impl<T: ?Sized> Deref for ARef<'_, T> {
    type Target = T;

    fn deref(&self) -> (t: &T)
        ensures
            t == self.target(),
    {
        match &self.0 {
            ARefInner::Ptr(p) => p,
            ARefInner::Ref(p) => p.deref(),
        }
    }
}

impl<'a, T: ?Sized + 'a> ARef<'a, T> {
    /// The form that this reference has.
    pub closed spec fn inner(&self) -> &ARefInner<'a, T> {
        &self.0
    }

    /// The value that this reference gives access to.
    pub open spec fn target(&self) -> &T {
        match self.inner() {
            ARefInner::Ptr(p) => p,
            ARefInner::Ref(r) => ref_target(r),
        }
    }

    /// Create a new `ARef` from a pointer.
    pub fn new_ptr(x: &'a T) -> (r: Self)
        ensures
            *r.inner() == ARefInner::Ptr(x),
    {
        Self(ARefInner::Ptr(x))
    }

    /// Create a new `ARef` from a reference.
    pub fn new_ref(x: Ref<'a, T>) -> (r: Self)
        ensures
            *r.inner() == ARefInner::Ref(x),
    {
        Self(ARefInner::Ref(x))
    }

    /// See `Ref::clone`. Not a self method since that interferes with the
    /// `Deref`.
    pub fn clone(orig: &Self) -> (r: Self)
        ensures
            r.target() == orig.target(),
            r.inner() is Ptr <==> orig.inner() is Ptr,
    {
        match &orig.0 {
            ARefInner::Ptr(p) => Self::new_ptr(p),
            ARefInner::Ref(p) => Self::new_ref(Ref::clone(p)),
        }
    }

    /// See `Ref::map`. Not a self method since that interferes with the
    /// `Deref`.
    pub fn map<U: ?Sized, F>(orig: ARef<'a, T>, f: F) -> (r: ARef<'a, U>) where
        F: FnOnce(&T) -> &U,

        requires
            f.requires((orig.target(),)),
        ensures
            f.ensures((orig.target(),), r.target()),
            r.inner() is Ptr <==> orig.inner() is Ptr,
    {
        match orig.0 {
            ARefInner::Ptr(p) => ARef::new_ptr(f(p)),
            ARefInner::Ref(p) => ARef::new_ref(ref_map(p, f)),
        }
    }

    /// See `Ref::map_split`. Not a self method since that interferes with
    /// the `Deref`.
    pub fn map_split<U: ?Sized, V: ?Sized, F>(orig: ARef<'a, T>, f: F) -> (r: (
        ARef<'a, U>,
        ARef<'a, V>,
    )) where F: FnOnce(&T) -> (&U, &V)
        requires
            f.requires((orig.target(),)),
        ensures
            f.ensures((orig.target(),), (r.0.target(), r.1.target())),
            r.0.inner() is Ptr <==> orig.inner() is Ptr,
            r.1.inner() is Ptr <==> orig.inner() is Ptr,
    {
        match orig.0 {
            ARefInner::Ptr(p) => {
                let (a, b) = f(p);
                (ARef::new_ptr(a), ARef::new_ptr(b))
            },
            ARefInner::Ref(p) => {
                let (a, b) = Ref::map_split(p, f);
                (ARef::new_ref(a), ARef::new_ref(b))
            },
        }
    }
}

/// `Hash::hash` feeds the value to the hasher. What a hasher makes of it is
/// its own affair, so nothing is said of the state afterwards.
#[verifier::external_body]
fn hash_value<T: Hash + ?Sized, H: Hasher>(value: &T, state: &mut H) {
    value.hash(state)
}

impl<T: Hash + ?Sized> Hash for ARef<'_, T> {
    /// Hashes the value behind the reference, so that an `ARef` hashes as
    /// the `&T` that it stands for.
    fn hash<H: Hasher>(&self, state: &mut H) {
        hash_value(ARef::deref(self), state)
    }
}

impl<A: PartialEq<B> + ?Sized, B: ?Sized> PartialEq<ARef<'_, B>> for ARef<'_, A> {
    fn eq(&self, other: &ARef<'_, B>) -> (r: bool) {
        ARef::deref(self).eq(ARef::deref(other))
    }
}

impl<A: PartialEq<B> + ?Sized, B: ?Sized> PartialEqSpecImpl<ARef<'_, B>> for ARef<'_, A> {
    open spec fn obeys_eq_spec() -> bool {
        A::obeys_eq_spec()
    }

    open spec fn eq_spec(&self, other: &ARef<'_, B>) -> bool {
        self.target().eq_spec(other.target())
    }
}

impl<A: Eq + ?Sized> Eq for ARef<'_, A> {
}

impl<A: PartialOrd<B> + ?Sized, B: ?Sized> PartialOrd<ARef<'_, B>> for ARef<'_, A> {
    fn partial_cmp(&self, other: &ARef<'_, B>) -> (r: Option<Ordering>) {
        ARef::deref(self).partial_cmp(ARef::deref(other))
    }
}

impl<A: PartialOrd<B> + ?Sized, B: ?Sized> PartialOrdSpecImpl<ARef<'_, B>> for ARef<'_, A> {
    open spec fn obeys_partial_cmp_spec() -> bool {
        A::obeys_partial_cmp_spec()
    }

    open spec fn partial_cmp_spec(&self, other: &ARef<'_, B>) -> Option<Ordering> {
        self.target().partial_cmp_spec(other.target())
    }
}

} // verus!
