//! Dynamic typing for values whose types carry lifetimes.
//!
//! `std::any::Any` asks for `'static`. The traits here give a type with
//! lifetime parameters the identity of the same type with every lifetime set
//! to `'static`, and compare identities through a `dyn AnyLifetime`.
//! [`AnyResult`] is a slot that keeps the first value of one chosen type.
//!
//! Identities are asked of [`Identified`] types only: the types of which the
//! program and the proofs agree which is which.

use std::any::Any;
use std::any::TypeId;
use std::marker::PhantomData;
use vstd::prelude::*;

verus! {

/// `std::any::TypeId`: the identifier that the program has for a type. It
/// is carried about and compared; nothing else is read of it.
#[verifier::external_type_specification]
#[verifier::external_body]
pub struct ExTypeId(TypeId);

/// A `'static` type whose identity in the running program follows the type
/// as the proofs see it.
///
/// The proofs take no notice of lifetimes: two types that differ only in a
/// lifetime are one type to them. In a `'static` type the only lifetimes
/// that are free to differ are those that the type binds itself, by
/// `for<'x>` or by leaving a lifetime out in a `dyn Fn(&T)` and the like; the
/// program gives `dyn for<'x> Tr<'x>` and `dyn Tr<'static>` two identities.
///
/// An implementation is the promise that the type binds no lifetime of its
/// own, so that no second type with another identity is the same type to
/// the proofs. A struct or an enum keeps the promise where its type
/// arguments keep it, whatever its fields are. Everything that is proved of
/// identities holds on the strength of it.
pub trait Identified: 'static {
}

/// The identity of the type `S` in the running program: what
/// `TypeId::of::<S>()` returns.
///
/// It is a name for that result and nothing is proved of it. Its value is
/// left open; all that is used of it is that one type has one identity,
/// whenever and wherever the program asks for it.
pub closed spec fn identity_of<S: ?Sized + Identified>() -> TypeId {
    vstd::pervasive::arbitrary::<(TypeId, PhantomData<S>)>().0
}

/// `TypeId::of::<S>()` is a constant of the program for each type: every
/// call returns the identity of `S`. The bound keeps out the types of which
/// the proofs would take two for one.
#[verifier::external_body]
fn type_id_of<S: ?Sized + Identified>() -> (id: TypeId)
    ensures
        id == identity_of::<S>(),
{
    TypeId::of::<S>()
}

/// `TypeId`'s `==` compares the identifiers themselves.
pub assume_specification[ <TypeId as PartialEq>::eq ](a: &TypeId, b: &TypeId) -> (r: bool)
    ensures
        r == (*a == *b),
;

/// Names the type that `Self` becomes once all its lifetimes, those of its
/// parameters included, are `'static`.
///
/// An implementation is a promise that `StaticType` is that type and no
/// other: identities are compared on the strength of it.
pub trait ProvidesStaticType {
    /// `Self` with every lifetime replaced by `'static`.
    type StaticType: Identified + ?Sized;
}

/// Like `std::any::Any`, for types that may hold borrowed data.
///
/// A type reports the identity of its `'static` form in two ways: without an
/// instance, and through an instance. The two must agree, which is what
/// `lemma_witness_consistent` asks every implementation to prove.
pub trait AnyLifetime<'a>: 'a {
    /// The identity that the type reports without an instance.
    spec fn static_identity() -> TypeId where Self: Sized;

    /// The identity that an instance reports.
    spec fn instance_identity(&self) -> TypeId;

    /// An instance reports the identity of its type.
    proof fn lemma_witness_consistent(&self) where Self: Sized
        ensures
            self.instance_identity() == Self::static_identity(),
    ;

    /// The identity of `Self` with its lifetimes set to `'static`.
    fn static_type_id() -> (id: TypeId) where Self: Sized
        ensures
            id == Self::static_identity(),
    ;

    /// The same identity, asked of an instance, whose content is not read.
    fn static_type_of(&self) -> (id: TypeId)
        ensures
            id == self.instance_identity(),
    ;
}

impl<'a, T: ProvidesStaticType + 'a> AnyLifetime<'a> for T {
    open spec fn static_identity() -> TypeId {
        identity_of::<T::StaticType>()
    }

    open spec fn instance_identity(&self) -> TypeId {
        identity_of::<T::StaticType>()
    }

    proof fn lemma_witness_consistent(&self) {
    }

    fn static_type_id() -> (id: TypeId) {
        type_id_of::<T::StaticType>()
    }

    fn static_type_of(&self) -> (id: TypeId) {
        type_id_of::<T::StaticType>()
    }
}

/// The reference `t` seen as a `dyn AnyLifetime`.
pub open spec fn erased<'a, 'p, T: AnyLifetime<'a>>(t: &'p T) -> &'p dyn AnyLifetime<'a> {
    t
}

impl<'a> dyn AnyLifetime<'a> {
    /// Whether the value behind the reference has the identity of `T`.
    pub open spec fn is_type<T: AnyLifetime<'a>>(&self) -> bool {
        self.instance_identity() == T::static_identity()
    }

    /// Is the value of type `T`.
    pub fn is<T: AnyLifetime<'a>>(&self) -> (b: bool)
        ensures
            b == self.is_type::<T>(),
    {
        self.static_type_of() == T::static_type_id()
    }
}

/// Witness consistency: for every value of a type with a declared `'static`
/// form, the identity asked of the value is the identity asked of the type,
/// and both are the identity of that `'static` form.
pub proof fn lemma_witness_consistency<'a, T: ProvidesStaticType + 'a>(t: &T)
    ensures
        t.instance_identity() == T::static_identity(),
        T::static_identity() == identity_of::<T::StaticType>(),
{
}

/// A reference to a `T`, once erased, is a `T`; and it is no `U` whose
/// identity differs from that of `T`.
pub proof fn lemma_erased_is_own_type<'a, T: AnyLifetime<'a>, U: AnyLifetime<'a>>(t: &T)
    ensures
        erased(t).is_type::<T>(),
        U::static_identity() != T::static_identity() ==> !erased(t).is_type::<U>(),
{
    t.lemma_witness_consistent();
}

impl Identified for () {
}

impl Identified for bool {
}

impl Identified for char {
}

impl Identified for u8 {
}

impl Identified for u16 {
}

impl Identified for u32 {
}

impl Identified for u64 {
}

impl Identified for u128 {
}

impl Identified for usize {
}

impl Identified for i8 {
}

impl Identified for i16 {
}

impl Identified for i32 {
}

impl Identified for i64 {
}

impl Identified for i128 {
}

impl Identified for isize {
}

impl Identified for String {
}

impl Identified for str {
}

impl<T: Identified + ?Sized> Identified for &'static T {
}

impl<T: Identified + ?Sized> Identified for Box<T> {
}

impl<T: Identified> Identified for Vec<T> {
}

impl<T: Identified> Identified for Option<T> {
}

impl<T: Identified, E: Identified> Identified for Result<T, E> {
}

impl<T: Identified> Identified for [T] {
}

impl<T: Identified, const N: usize> Identified for [T; N] {
}

impl<A: Identified, B: Identified> Identified for (A, B) {
}

impl<A: Identified, B: Identified, C: Identified> Identified for (A, B, C) {
}

impl ProvidesStaticType for () {
    type StaticType = ();
}

impl ProvidesStaticType for bool {
    type StaticType = bool;
}

impl ProvidesStaticType for u8 {
    type StaticType = u8;
}

impl ProvidesStaticType for u16 {
    type StaticType = u16;
}

impl ProvidesStaticType for u32 {
    type StaticType = u32;
}

impl ProvidesStaticType for u64 {
    type StaticType = u64;
}

impl ProvidesStaticType for u128 {
    type StaticType = u128;
}

impl ProvidesStaticType for usize {
    type StaticType = usize;
}

impl ProvidesStaticType for i8 {
    type StaticType = i8;
}

impl ProvidesStaticType for i16 {
    type StaticType = i16;
}

impl ProvidesStaticType for i32 {
    type StaticType = i32;
}

impl ProvidesStaticType for i64 {
    type StaticType = i64;
}

impl ProvidesStaticType for i128 {
    type StaticType = i128;
}

impl ProvidesStaticType for isize {
    type StaticType = isize;
}

impl ProvidesStaticType for String {
    type StaticType = String;
}

impl ProvidesStaticType for Box<str> {
    type StaticType = Box<str>;
}

impl<'l> ProvidesStaticType for &'l str {
    type StaticType = &'static str;
}

impl ProvidesStaticType for str {
    type StaticType = str;
}

/// A `Box<dyn Any + Send>`: a value of some `'static` type, kept without its
/// type being named.
#[verifier::external_body]
pub struct AnyBox {
    value: Box<dyn Any + Send>,
}

/// The identity of the type of the value that `b` holds.
pub uninterp spec fn boxed_identity(b: AnyBox) -> TypeId;

/// The value that `b` holds, for the `T` whose identity `b` has: what
/// `downcast` hands out. It is a name for that result and nothing is proved
/// of it.
pub closed spec fn boxed_value<T>(b: AnyBox) -> T {
    vstd::pervasive::arbitrary::<spec_fn(AnyBox) -> T>()(b)
}

/// `Box::new`, and the box taken as a `Box<dyn Any + Send>`: it holds `v`
/// and knows the type that `v` had.
#[verifier::external_body]
fn box_any<T: Identified + Send>(v: T) -> (b: AnyBox)
    ensures
        boxed_identity(b) == identity_of::<T>(),
        boxed_value::<T>(b) == v,
{
    AnyBox { value: Box::new(v) }
}

/// `Box<dyn Any + Send>::downcast`: the value comes back where `T` is the
/// type it was boxed with, and not otherwise.
#[verifier::external_body]
fn unbox<T: Identified>(b: AnyBox) -> (r: Option<T>)
    ensures
        r == if boxed_identity(b) == identity_of::<T>() {
            Some(boxed_value::<T>(b))
        } else {
            None
        },
{
    match b.value.downcast::<T>() {
        Ok(v) => Some(*v),
        Err(_) => None,
    }
}

/// `<dyn Any + Send>::downcast_ref`: a reference to the value where `T` is
/// the type it was boxed with, and nothing otherwise.
#[verifier::external_body]
fn unbox_ref<T: Identified>(b: &AnyBox) -> (r: Option<&T>)
    ensures
        r == if boxed_identity(*b) == identity_of::<T>() {
            Some(&boxed_value::<T>(*b))
        } else {
            None
        },
{
    b.value.downcast_ref::<T>()
}

/// A result into which a value of one chosen type can be written.
///
/// The type is chosen by `new`. Of the values handed to `add`, the first of
/// that type is kept; values of other types, and later values of that type,
/// are passed over.
pub struct AnyResult {
    want: TypeId,
    result: Option<AnyBox>,
}

impl AnyResult {
    #[verifier::type_invariant]
    spec fn well_formed(&self) -> bool {
        self.result matches Some(b) ==> boxed_identity(b) == self.want
    }

    /// The identity of the type that this result was made for.
    pub closed spec fn wanted(&self) -> TypeId {
        self.want
    }

    /// Whether a value has been kept.
    pub closed spec fn is_filled(&self) -> bool {
        self.result is Some
    }

    /// The identity of the type of the value that is kept. It means
    /// something only where the result is filled.
    pub closed spec fn kept_identity(&self) -> TypeId {
        boxed_identity(self.result->0)
    }

    /// The value that is kept, read as a `T`. It means something only where
    /// the result is filled and was made for `T`.
    pub closed spec fn kept<T>(&self) -> T {
        boxed_value::<T>(self.result->0)
    }

    /// What `result` and `result_ref` hand out at the type `T`.
    pub open spec fn outcome<T>(&self) -> Option<T> {
        if self.is_filled() {
            Some(self.kept::<T>())
        } else {
            None
        }
    }

    /// Create a new `AnyResult` that can contain values of type `T`.
    pub fn new<T: Identified>() -> (r: Self)
        ensures
            r.wanted() == identity_of::<T>(),
            !r.is_filled(),
    {
        Self { want: type_id_of::<T>(), result: None }
    }

    /// Whether this result was made for the type `T`, which is what
    /// `result` and `result_ref` ask of their callers.
    pub fn wants<T: Identified>(&self) -> (b: bool)
        ensures
            b == (self.wanted() == identity_of::<T>()),
    {
        self.want == type_id_of::<T>()
    }

    /// Grab the value stored in an `AnyResult`: `None` if no value of the
    /// right type has been added, otherwise the first that was added.
    pub fn result<T: Identified>(self) -> (r: Option<T>)
        requires
            self.wanted() == identity_of::<T>(),
        ensures
            r == self.outcome::<T>(),
    {
        proof {
            use_type_invariant(&self);
        }
        match self.result {
            None => None,
            Some(v) => unbox::<T>(v),
        }
    }

    /// Same as `result`, but gets a reference.
    pub fn result_ref<T: Identified>(&self) -> (r: Option<&T>)
        requires
            self.wanted() == identity_of::<T>(),
        ensures
            r == match self.outcome::<T>() {
                Some(v) => Some(&v),
                None => None,
            },
    {
        proof {
            use_type_invariant(self);
        }
        match &self.result {
            None => None,
            Some(v) => unbox_ref::<T>(v),
        }
    }

    /// `result` for a caller that does not know which type the result was
    /// made for: the answer of `result` where that type is `T`, and nothing
    /// where it is another.
    pub fn checked_result<T: Identified>(self) -> (r: Option<Option<T>>)
        ensures
            r == if self.wanted() == identity_of::<T>() {
                Some(self.outcome::<T>())
            } else {
                None
            },
    {
        if self.wants::<T>() {
            Some(self.result::<T>())
        } else {
            None
        }
    }

    /// `result_ref` for a caller that does not know which type the result
    /// was made for: the answer of `result_ref` where that type is `T`, and
    /// nothing where it is another.
    pub fn checked_result_ref<T: Identified>(&self) -> (r: Option<Option<&T>>)
        ensures
            r == if self.wanted() == identity_of::<T>() {
                Some(
                    match self.outcome::<T>() {
                        Some(v) => Some(&v),
                        None => None,
                    },
                )
            } else {
                None
            },
    {
        if self.wants::<T>() {
            Some(self.result_ref::<T>())
        } else {
            None
        }
    }

    /// Whether a call of `add` at the type `T` runs its function and keeps
    /// what it returns: `T` is the wanted type and nothing is kept yet.
    pub open spec fn accepts<T: Identified>(&self) -> bool {
        self.wanted() == identity_of::<T>() && !self.is_filled()
    }

    /// Add a value with a given type to the `AnyResult`. If this call is the
    /// first where the type `T` matches that used for `new` then the
    /// function will be run.
    pub fn add<T: Identified + Send, F: FnOnce() -> T>(&mut self, f: F) -> (r: &mut Self)
        requires
            old(self).accepts::<T>() ==> f.requires(()),
        ensures
            *final(self) == *final(r),
            r.wanted() == old(self).wanted(),
            old(self).accepts::<T>() ==> r.is_filled() && f.ensures((), r.kept::<T>()),
            !old(self).accepts::<T>() ==> *r == *old(self),
            added(*old(self), identity_of::<T>(), *r),
    {
        if type_id_of::<T>() == self.want {
            if self.result.is_none() {
                self.result = Some(box_any(f()));
            }
        }
        self
    }
}

/// Whether `after` is what a call of `add`, at a type of the identity `id`,
/// makes of `before`: a value of that type is kept where the type is wanted
/// and nothing is kept yet, and nothing changes otherwise.
pub open spec fn added(before: AnyResult, id: TypeId, after: AnyResult) -> bool {
    &&& after.wanted() == before.wanted()
    &&& if id == before.wanted() && !before.is_filled() {
        after.is_filled() && after.kept_identity() == id
    } else {
        after == before
    }
}

/// Whether `states` are the states that a result goes through, from a new
/// one on, while `add` is called at types of the identities `ids`, in this
/// order: `states[i]` is the state before the call at `ids[i]`, and
/// `states[i + 1]` the state after it.
pub open spec fn history(states: Seq<AnyResult>, ids: Seq<TypeId>) -> bool {
    &&& states.len() == ids.len() + 1
    &&& !states[0].is_filled()
    &&& forall|i: int| 1 <= i < states.len() ==> added(states[i - 1], ids[i - 1], #[trigger] states[i])
}

/// Whether the call at `k` is the first at the wanted type.
pub open spec fn first_match(wanted: TypeId, ids: Seq<TypeId>, k: int) -> bool {
    &&& 0 <= k < ids.len()
    &&& ids[k] == wanted
    &&& forall|j: int| 0 <= j < k ==> #[trigger] ids[j] != wanted
}

proof fn lemma_state_at(states: Seq<AnyResult>, ids: Seq<TypeId>, i: int)
    requires
        history(states, ids),
        0 <= i < states.len(),
    ensures
        states[i].wanted() == states[0].wanted(),
        (forall|j: int| 0 <= j < i ==> #[trigger] ids[j] != states[0].wanted()) ==> states[i]
            == states[0],
        forall|k: int| first_match(states[0].wanted(), ids, k) && k < i ==> states[i] == states[k + 1],
        forall|k: int|
            first_match(states[0].wanted(), ids, k) ==> states[k + 1].is_filled() && states[k
                + 1].kept_identity() == states[0].wanted(),
    decreases i,
{
    let wanted = states[0].wanted();
    if i > 0 {
        lemma_state_at(states, ids, i - 1);
        assert(added(states[i - 1], ids[i - 1], states[i]));
        assert forall|k: int| first_match(wanted, ids, k) && k < i implies states[i] == states[k
            + 1] by {
            if k < i - 1 {
                assert(states[i - 1] == states[k + 1]);
            }
        }
    }
    assert forall|k: int| first_match(wanted, ids, k) implies states[k + 1].is_filled() && states[k
        + 1].kept_identity() == wanted by {
        lemma_unmatched_prefix(states, ids, k);
        assert(added(states[k], ids[k], states[k + 1]));
    }
}

proof fn lemma_unmatched_prefix(states: Seq<AnyResult>, ids: Seq<TypeId>, i: int)
    requires
        history(states, ids),
        0 <= i < states.len(),
        forall|j: int| 0 <= j < i ==> #[trigger] ids[j] != states[0].wanted(),
    ensures
        states[i] == states[0],
    decreases i,
{
    if i > 0 {
        lemma_unmatched_prefix(states, ids, i - 1);
        assert(added(states[i - 1], ids[i - 1], states[i]));
    }
}

/// The first value of the wanted type is the one that stays. However many
/// calls of `add` follow a `new`, and at whatever types: if one of them is
/// at the wanted type, the result ends in the state that the first such
/// call left it in, which holds a value of the wanted type; if none is, the
/// result ends as it began, with nothing kept. What the state after that
/// first call holds is stated by `add`: a value that its function returned.
pub proof fn lemma_first_match_wins(states: Seq<AnyResult>, ids: Seq<TypeId>)
    requires
        history(states, ids),
    ensures
        forall|k: int|
            first_match(states[0].wanted(), ids, k) ==> {
                &&& states.last() == #[trigger] states[k + 1]
                &&& states.last().is_filled()
                &&& states.last().kept_identity() == states[0].wanted()
            },
        (forall|j: int| 0 <= j < ids.len() ==> #[trigger] ids[j] != states[0].wanted())
            ==> states.last() == states[0] && !states.last().is_filled(),
        states.last().wanted() == states[0].wanted(),
{
    lemma_state_at(states, ids, states.len() - 1);
}

} // verus!
