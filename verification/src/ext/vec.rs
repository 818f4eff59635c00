//! Shorthands for mapping over slices and vectors.

use crate::dupe::duped;
use crate::dupe::Dupe;
use crate::types::TEq;
use std::borrow::Borrow;
use vstd::prelude::*;

verus! {

/// Whether `out` holds, place by place, a result of `f` on a reference to
/// the item of `items` in that place: as many items, in the same order.
pub open spec fn maps_refs<'a, T: 'a, B, F: FnMut(&'a T) -> B>(f: F, items: Seq<T>, out: Seq<B>) -> bool {
    &&& out.len() == items.len()
    &&& forall|i: int| 0 <= i < items.len() ==> f.ensures((&items[i],), #[trigger] out[i])
}

/// Whether `out` holds, place by place, what `f` succeeds with on a
/// reference to the item of `items` in that place.
pub open spec fn maps_refs_ok<'a, T: 'a, B, E, F: FnMut(&'a T) -> Result<B, E>>(
    f: F,
    items: Seq<T>,
    out: Seq<B>,
) -> bool {
    &&& out.len() == items.len()
    &&& forall|i: int| 0 <= i < items.len() ==> f.ensures((&items[i],), Ok(#[trigger] out[i]))
}

/// Whether `f` may succeed on a reference to `x`.
pub open spec fn succeeds_on_ref<'a, T: 'a, B, E, F: FnMut(&'a T) -> Result<B, E>>(f: F, x: T) -> bool {
    exists|b: B| #[trigger] f.ensures((&x,), Ok(b))
}

/// Whether `f` can be called on a reference to each item of `items` that it
/// comes to: the first, and each one after items on which it may succeed.
pub open spec fn callable_in_turn_ref<'a, T: 'a, B, E, F: FnMut(&'a T) -> Result<B, E>>(
    f: F,
    items: Seq<T>,
) -> bool {
    forall|i: int|
        0 <= i < items.len() && (forall|j: int| 0 <= j < i ==> #[trigger] succeeds_on_ref(f, items[j]))
            ==> f.requires((&#[trigger] items[i],))
}

/// Whether `f` fails on a reference to the item of `items` at `k`, with the
/// error `e`, after it has succeeded on all the items before.
pub open spec fn fails_first_at_ref<'a, T: 'a, B, E, F: FnMut(&'a T) -> Result<B, E>>(
    f: F,
    items: Seq<T>,
    k: int,
    e: E,
) -> bool {
    &&& 0 <= k < items.len()
    &&& f.ensures((&items[k],), Err(e))
    &&& forall|j: int| 0 <= j < k ==> #[trigger] succeeds_on_ref(f, items[j])
}

/// `ToOwned::to_owned` makes owned data from borrowed data. What it makes is
/// up to the impl of the type, so nothing is said of it.
#[verifier::external_body]
fn to_owned_value<T: ToOwned + ?Sized>(t: &T) -> (r: T::Owned) {
    t.to_owned()
}

/// Whether `r` is something that `to_owned` may make of `t`.
pub closed spec fn owned_from<T: ToOwned + ?Sized>(t: &T, r: T::Owned) -> bool {
    call_ensures(to_owned_value::<T>, (t,), r)
}

/// Extension traits on slices and `Vec`.
pub trait SliceExt {
    type Item;

    /// The items of the slice, in order.
    spec fn items(&self) -> Seq<Self::Item>;

    /// A shorthand for `iter().map(f).collect::<Vec<_>>()`.
    fn map<'a, B, F>(&'a self, f: F) -> (r: Vec<B>) where F: FnMut(&'a Self::Item) -> B
        requires
            forall|i: int| 0 <= i < self.items().len() ==> f.requires((&self.items()[i],)),
        ensures
            maps_refs(f, self.items(), r@),
    ;

    /// A shorthand for `iter().map(f).collect::<Result<Vec<_>, _>>()`: the
    /// results of `f`, or the first error that `f` gives.
    fn try_map<'a, B, E, F>(&'a self, f: F) -> (r: Result<Vec<B>, E>) where
        F: FnMut(&'a Self::Item) -> Result<B, E>,

        requires
            callable_in_turn_ref(f, self.items()),
        ensures
            match r {
                Ok(v) => maps_refs_ok(f, self.items(), v@),
                Err(e) => exists|k: int| fails_first_at_ref(f, self.items(), k, e),
            },
    ;

    /// Take ownership of each item in the slice using `to_owned`.
    fn owned<'a, T, R>(&'a self) -> (r: Vec<R>) where
        Self::Item: TEq<&'a T>,
        R: Borrow<T>,
        T: ToOwned<Owned = R>,
        T: 'a,
        T: ?Sized,

        ensures
            r@.len() == self.items().len(),
            forall|i: int|
                0 <= i < self.items().len() ==> owned_from::<T>(
                    self.items()[i].teq_spec(),
                    #[trigger] r@[i],
                ),
    {
        self.map(
            |x: &'a Self::Item| -> (y: R)
                ensures owned_from::<T>((*x).teq_spec(), y)
                { to_owned_value::<T>(*x.teq_ref()) }
        )
    }

    /// If the size of the slice is 1, returns the first element. Otherwise,
    /// returns `None`.
    fn as_singleton(&self) -> (r: Option<&Self::Item>)
        ensures
            r == if self.items().len() == 1 {
                Some(&self.items()[0])
            } else {
                None
            },
    ;

    /// Copies the elements from `src` into `self`, analogous to
    /// `clone_from_slice` but for elements that are `dupe`. The length of
    /// `src` must be the same as `self`.
    fn dupe_from_slice(&mut self, src: &[Self::Item]) where Self::Item: Dupe
        requires
            old(self).items().len() == src@.len(),
        ensures
            final(self).items().len() == src@.len(),
            forall|i: int| 0 <= i < src@.len() ==> duped(src@[i], #[trigger] final(self).items()[i]),
    ;
}

impl<T> SliceExt for [T] {
    type Item = T;

    open spec fn items(&self) -> Seq<T> {
        self@
    }

    fn map<'a, B, F>(&'a self, f: F) -> (r: Vec<B>) where F: FnMut(&'a T) -> B {
        let mut g = f;
        assert(self.items() == self@);
        let mut out: Vec<B> = Vec::new();
        let mut i: usize = 0;
        while i < self.len()
            invariant
                i <= self@.len(),
                out@.len() == i,
                g == f,
                forall|j: int| 0 <= j < self@.len() ==> f.requires((&self@[j],)),
                forall|j: int| 0 <= j < i ==> f.ensures((&self@[j],), #[trigger] out@[j]),
            decreases self@.len() - i,
        {
            out.push(g(&self[i]));
            i += 1;
        }
        out
    }

    fn try_map<'a, B, E, F>(&'a self, f: F) -> (r: Result<Vec<B>, E>) where
        F: FnMut(&'a T) -> Result<B, E>,
     {
        let mut g = f;
        let mut out: Vec<B> = Vec::new();
        let mut i: usize = 0;
        while i < self.len()
            invariant
                i <= self@.len(),
                out@.len() == i,
                g == f,
                self.items() == self@,
                callable_in_turn_ref(f, self@),
                forall|j: int| 0 <= j < i ==> f.ensures((&self@[j],), Ok(#[trigger] out@[j])),
            decreases self@.len() - i,
        {
            proof {
                assert forall|j: int| 0 <= j < i implies #[trigger] succeeds_on_ref(f, self@[j]) by {
                    assert(f.ensures((&self@[j],), Ok(out@[j])));
                }
            }
            match g(&self[i]) {
                Ok(b) => {
                    out.push(b);
                },
                Err(e) => {
                    let r = Err(e);
                    assert(r matches Err(e2) && fails_first_at_ref(f, self.items(), i as int, e2));
                    return r;
                },
            }
            i += 1;
        }
        Ok(out)
    }

    fn as_singleton(&self) -> (r: Option<&T>) {
        if self.len() == 1 {
            Some(&self[0])
        } else {
            None
        }
    }

    fn dupe_from_slice(&mut self, src: &[T]) where T: Dupe {
        let mut i: usize = 0;
        while i < src.len()
            invariant
                i <= src@.len(),
                self@.len() == src@.len(),
                forall|j: int| 0 <= j < i ==> duped(src@[j], #[trigger] self@[j]),
            decreases src@.len() - i,
        {
            self[i] = src[i].dupe();
            i += 1;
        }
    }
}

/// Short hand analogous to `Iter::cloned`, where items of `&T` are converted
/// to `T` via `clone`.
pub trait SliceClonedExt {
    type Item;

    fn cloned(&self) -> Vec<Self::Item>;
}

impl<T> SliceClonedExt for [&T] where T: Clone {
    type Item = T;

    fn cloned(&self) -> (r: Vec<T>)
        ensures
            r@.len() == self@.len(),
            forall|i: int|
                0 <= i < self@.len() ==> vstd::pervasive::cloned::<T>(*self@[i], #[trigger] r@[i]),
    {
        self.map(|x: &&T| -> (y: T) ensures vstd::pervasive::cloned::<T>(**x, y) { (*x).clone() })
    }
}

/// Short hand analogous to `Iter::cloned`, where items of `&T` are converted
/// to `T` via `dupe`.
pub trait SliceDupedExt {
    type Item;

    fn duped(&self) -> Vec<Self::Item>;
}

impl<T> SliceDupedExt for [&T] where T: Dupe {
    type Item = T;

    fn duped(&self) -> (r: Vec<T>)
        ensures
            r@.len() == self@.len(),
            forall|i: int| 0 <= i < self@.len() ==> duped(*self@[i], #[trigger] r@[i]),
    {
        self.map(|x: &&T| -> (y: T) ensures duped(**x, y) { (*x).dupe() })
    }
}

/// Short hand analogous to `Iter::copied`, where items of `&T` are converted
/// to `T` via `copy`.
pub trait SliceCopiedExt {
    type Item;

    fn copied(&self) -> Vec<Self::Item>;
}

impl<T> SliceCopiedExt for [&T] where T: Copy {
    type Item = T;

    fn copied(&self) -> (r: Vec<T>)
        ensures
            r@.len() == self@.len(),
            forall|i: int| 0 <= i < self@.len() ==> #[trigger] r@[i] == *self@[i],
    {
        self.map(|x: &&T| -> (y: T) ensures y == **x { **x })
    }
}

/// Whether `out` holds, place by place, a result of `f` on the item of
/// `items` in that place: as many items, in the same order.
pub open spec fn maps_items<T, B, F: FnMut(T) -> B>(f: F, items: Seq<T>, out: Seq<B>) -> bool {
    &&& out.len() == items.len()
    &&& forall|i: int| 0 <= i < items.len() ==> f.ensures((items[i],), #[trigger] out[i])
}

/// Whether `out` holds, place by place, what `f` succeeds with on the item
/// of `items` in that place.
pub open spec fn maps_items_ok<T, B, E, F: FnMut(T) -> Result<B, E>>(
    f: F,
    items: Seq<T>,
    out: Seq<B>,
) -> bool {
    &&& out.len() == items.len()
    &&& forall|i: int| 0 <= i < items.len() ==> f.ensures((items[i],), Ok(#[trigger] out[i]))
}

/// Whether `f` may succeed on `x`.
pub open spec fn succeeds_on<T, B, E, F: FnMut(T) -> Result<B, E>>(f: F, x: T) -> bool {
    exists|b: B| #[trigger] f.ensures((x,), Ok(b))
}

/// Whether `f` can be called on each item of `items` that it comes to: the
/// first, and each one after items on which it may succeed.
pub open spec fn callable_in_turn<T, B, E, F: FnMut(T) -> Result<B, E>>(f: F, items: Seq<T>) -> bool {
    forall|i: int|
        0 <= i < items.len() && (forall|j: int| 0 <= j < i ==> #[trigger] succeeds_on(f, items[j]))
            ==> f.requires((#[trigger] items[i],))
}

/// Whether `f` fails on the item of `items` at `k`, with the error `e`,
/// after it has succeeded on all the items before.
pub open spec fn fails_first_at<T, B, E, F: FnMut(T) -> Result<B, E>>(
    f: F,
    items: Seq<T>,
    k: int,
    e: E,
) -> bool {
    &&& 0 <= k < items.len()
    &&& f.ensures((items[k],), Err(e))
    &&& forall|j: int| 0 <= j < k ==> #[trigger] succeeds_on(f, items[j])
}

/// Extension traits on `Vec`.
pub trait VecExt {
    type Item;

    /// The items of the vector, in order.
    spec fn items(&self) -> Seq<Self::Item>;

    /// A shorthand for `into_iter().map(f).collect::<Vec<_>>()`.
    fn into_map<B, F>(self, f: F) -> (r: Vec<B>) where F: FnMut(Self::Item) -> B, Self: Sized
        requires
            forall|i: int| 0 <= i < self.items().len() ==> f.requires((self.items()[i],)),
        ensures
            maps_items(f, self.items(), r@),
    ;

    /// A shorthand for `into_iter().map(f).collect::<Result<Vec<_>, _>>()`:
    /// the results of `f`, or the first error that `f` gives.
    fn into_try_map<B, E, F>(self, f: F) -> (r: Result<Vec<B>, E>) where
        F: FnMut(Self::Item) -> Result<B, E>,
        Self: Sized,

        requires
            callable_in_turn(f, self.items()),
        ensures
            match r {
                Ok(v) => maps_items_ok(f, self.items(), v@),
                Err(e) => exists|k: int| fails_first_at(f, self.items(), k, e),
            },
    ;
}

impl<T> VecExt for Vec<T> {
    type Item = T;

    open spec fn items(&self) -> Seq<T> {
        self@
    }

    fn into_map<B, F>(self, f: F) -> (r: Vec<B>) where F: FnMut(T) -> B {
        let ghost items = self@;
        let mut g = f;
        assert(self.items() == items);
        let mut out: Vec<B> = Vec::new();
        for x in it: self.into_iter()
            invariant
                it.seq() == items,
                out@.len() == it.index(),
                g == f,
                forall|j: int| 0 <= j < items.len() ==> f.requires((items[j],)),
                forall|j: int| 0 <= j < it.index() ==> f.ensures((items[j],), #[trigger] out@[j]),
        {
            out.push(g(x));
        }
        out
    }

    fn into_try_map<B, E, F>(self, f: F) -> (r: Result<Vec<B>, E>) where
        F: FnMut(T) -> Result<B, E>,
     {
        let ghost items = self@;
        let mut g = f;
        assert(self.items() == items);
        let mut out: Vec<B> = Vec::new();
        for x in it: self.into_iter()
            invariant
                it.seq() == items,
                self.items() == items,
                out@.len() == it.index(),
                g == f,
                callable_in_turn(f, items),
                forall|j: int|
                    0 <= j < it.index() ==> f.ensures((items[j],), Ok(#[trigger] out@[j])),
        {
            proof {
                assert forall|j: int| 0 <= j < it.index() implies #[trigger] succeeds_on(
                    f,
                    items[j],
                ) by {
                    assert(f.ensures((items[j],), Ok(out@[j])));
                }
            }
            match g(x) {
                Ok(b) => {
                    out.push(b);
                },
                Err(e) => {
                    let r = Err(e);
                    assert(r matches Err(e2) && fails_first_at(f, self.items(), it.index(), e2));
                    return r;
                },
            }
        }
        Ok(out)
    }
}

} // verus!
