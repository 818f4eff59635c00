//! Conversions between types that hold the same data.
//!
//! `From: Coerce<To>` says that a `From` can be taken for a `To` as it stands:
//! a wrapper around one field for that field, a container of wrappers for a
//! container of fields. The conversion that an implementation gives is the
//! statement of what the value is as a `To`; [`coerce`] applies it.

use std::collections::HashMap;
use std::collections::HashSet;
use std::hash::Hash;
use vstd::prelude::*;
use vstd::std_specs::hash::obeys_key_model;

verus! {

/// `From: Coerce<To>` holds where a `From` can be treated as a `To` without
/// its data being changed: the two have the same layout, `To` asks for no
/// more alignment and no further invariant, and the value may be dropped as
/// a `To`.
///
/// `coerce_into` hands the value over as a `To` by ordinary means and so
/// fixes what the `To` is. An implementation for a wrapper moves its field
/// out; one for a container converts item by item.
pub trait Coerce<To>: Sized {
    /// The value, as a `To`.
    fn coerce_into(self) -> To;
}

/// `From: CoerceKey<To>` holds where, beyond `Coerce`, hashing, equality and
/// ordering give the same results on a `From` as on the `To` it becomes.
/// It is what the keys of sets and maps need.
pub trait CoerceKey<To>: Coerce<To> {
}

/// Whether `to` is what the conversion from `From` to `To` makes of `from`.
pub open spec fn coerces_to<From: Coerce<To>, To>(from: From, to: To) -> bool {
    call_ensures(From::coerce_into, (from,), to)
}

/// Whether `to` holds, place by place, what the conversion makes of the
/// items of `from`: as many items, in the same order.
pub open spec fn coerces_each<From: Coerce<To>, To>(from: Seq<From>, to: Seq<To>) -> bool {
    &&& to.len() == from.len()
    &&& forall|i: int| 0 <= i < from.len() ==> coerces_to(from[i], #[trigger] to[i])
}

/// Convert between types which have a `Coerce` relationship. Often the
/// second type argument will need to be given explicitly, as in
/// `coerce::<_, ToType>(x)`.
pub fn coerce<From, To>(x: From) -> (r: To) where From: Coerce<To>
    ensures
        coerces_to(x, r),
{
    x.coerce_into()
}

impl Coerce<String> for String {
    fn coerce_into(self) -> (r: String)
        ensures
            r == self,
    {
        self
    }
}

impl CoerceKey<String> for String {
}

impl Coerce<bool> for bool {
    fn coerce_into(self) -> (r: bool)
        ensures
            r == self,
    {
        self
    }
}

impl CoerceKey<bool> for bool {
}

impl Coerce<char> for char {
    fn coerce_into(self) -> (r: char)
        ensures
            r == self,
    {
        self
    }
}

impl CoerceKey<char> for char {
}

impl Coerce<u8> for u8 {
    fn coerce_into(self) -> (r: u8)
        ensures
            r == self,
    {
        self
    }
}

impl CoerceKey<u8> for u8 {
}

impl Coerce<u16> for u16 {
    fn coerce_into(self) -> (r: u16)
        ensures
            r == self,
    {
        self
    }
}

impl CoerceKey<u16> for u16 {
}

impl Coerce<u32> for u32 {
    fn coerce_into(self) -> (r: u32)
        ensures
            r == self,
    {
        self
    }
}

impl CoerceKey<u32> for u32 {
}

impl Coerce<u64> for u64 {
    fn coerce_into(self) -> (r: u64)
        ensures
            r == self,
    {
        self
    }
}

impl CoerceKey<u64> for u64 {
}

impl Coerce<u128> for u128 {
    fn coerce_into(self) -> (r: u128)
        ensures
            r == self,
    {
        self
    }
}

impl CoerceKey<u128> for u128 {
}

impl Coerce<usize> for usize {
    fn coerce_into(self) -> (r: usize)
        ensures
            r == self,
    {
        self
    }
}

impl CoerceKey<usize> for usize {
}

impl Coerce<i8> for i8 {
    fn coerce_into(self) -> (r: i8)
        ensures
            r == self,
    {
        self
    }
}

impl CoerceKey<i8> for i8 {
}

impl Coerce<i16> for i16 {
    fn coerce_into(self) -> (r: i16)
        ensures
            r == self,
    {
        self
    }
}

impl CoerceKey<i16> for i16 {
}

impl Coerce<i32> for i32 {
    fn coerce_into(self) -> (r: i32)
        ensures
            r == self,
    {
        self
    }
}

impl CoerceKey<i32> for i32 {
}

impl Coerce<i64> for i64 {
    fn coerce_into(self) -> (r: i64)
        ensures
            r == self,
    {
        self
    }
}

impl CoerceKey<i64> for i64 {
}

impl Coerce<i128> for i128 {
    fn coerce_into(self) -> (r: i128)
        ensures
            r == self,
    {
        self
    }
}

impl CoerceKey<i128> for i128 {
}

impl Coerce<isize> for isize {
    fn coerce_into(self) -> (r: isize)
        ensures
            r == self,
    {
        self
    }
}

impl CoerceKey<isize> for isize {
}

impl<From, To> Coerce<Vec<To>> for Vec<From> where From: Coerce<To> {
    fn coerce_into(self) -> (r: Vec<To>)
        ensures
            coerces_each(self@, r@),
    {
        let ghost items = self@;
        let mut out: Vec<To> = Vec::new();
        for x in it: self.into_iter()
            invariant
                it.seq() == items,
                out@.len() == it.index(),
                forall|j: int| 0 <= j < it.index() ==> coerces_to(items[j], #[trigger] out@[j]),
        {
            out.push(x.coerce_into());
        }
        out
    }
}

impl<From, To> CoerceKey<Vec<To>> for Vec<From> where From: CoerceKey<To> {
}

impl<From, To> Coerce<Box<To>> for Box<From> where From: Coerce<To> {
    fn coerce_into(self) -> (r: Box<To>)
        ensures
            coerces_to(*self, *r),
    {
        let inner: From = *self;
        Box::new(inner.coerce_into())
    }
}

impl<From, To> CoerceKey<Box<To>> for Box<From> where From: CoerceKey<To> {
}

impl<From1, From2, To1, To2> Coerce<(To1, To2)> for (From1, From2) where
    From1: Coerce<To1>,
    From2: Coerce<To2>,
 {
    fn coerce_into(self) -> (r: (To1, To2))
        ensures
            coerces_to(self.0, r.0),
            coerces_to(self.1, r.1),
    {
        let (a, b) = self;
        (a.coerce_into(), b.coerce_into())
    }
}

impl<From1, From2, To1, To2> CoerceKey<(To1, To2)> for (From1, From2) where
    From1: CoerceKey<To1>,
    From2: CoerceKey<To2>,
 {
}

/// Whether `to` holds what the conversion makes of `f`.
pub open spec fn has_image<From: Coerce<To>, To>(f: From, to: Set<To>) -> bool {
    exists|t: To| to.contains(t) && #[trigger] coerces_to(f, t)
}

/// Whether `t` is what the conversion makes of an item of `from`.
pub open spec fn has_origin<From: Coerce<To>, To>(from: Set<From>, t: To) -> bool {
    exists|f: From| from.contains(f) && #[trigger] coerces_to(f, t)
}

/// Whether `to` is made of the conversions of the items of `from`: every
/// item of `to` is what the conversion makes of an item of `from`, and
/// every item of `from` has a conversion in `to`.
pub open spec fn coerces_set<From: Coerce<To>, To>(from: Set<From>, to: Set<To>) -> bool {
    &&& forall|t: To| to.contains(t) ==> #[trigger] has_origin(from, t)
    &&& forall|f: From| from.contains(f) ==> #[trigger] has_image(f, to)
}

/// Whether `to` has a key that the conversion makes of `fk`.
pub open spec fn has_key_image<FromK: Coerce<ToK>, ToK, ToV>(fk: FromK, to: Map<ToK, ToV>) -> bool {
    exists|tk: ToK| to.contains_key(tk) && #[trigger] coerces_to(fk, tk)
}

/// Whether `tk` with `tv` is what the conversions make of the key and the
/// value of an entry of `from`.
pub open spec fn has_entry_origin<FromK: Coerce<ToK>, FromV: Coerce<ToV>, ToK, ToV>(
    from: Map<FromK, FromV>,
    tk: ToK,
    tv: ToV,
) -> bool {
    exists|fk: FromK|
        from.contains_key(fk) && #[trigger] coerces_to(fk, tk) && coerces_to(from[fk], tv)
}

/// Whether `to` is made of the conversions of the entries of `from`: every
/// entry of `to` is what the conversions make of the key and the value of
/// an entry of `from`, and every key of `from` has a conversion among the
/// keys of `to`.
pub open spec fn coerces_map<FromK: Coerce<ToK>, FromV: Coerce<ToV>, ToK, ToV>(
    from: Map<FromK, FromV>,
    to: Map<ToK, ToV>,
) -> bool {
    &&& forall|tk: ToK| to.contains_key(tk) ==> #[trigger] has_entry_origin(from, tk, to[tk])
    &&& forall|fk: FromK| from.contains_key(fk) ==> #[trigger] has_key_image(fk, to)
}

/// `Vec::from_iter` on a `HashSet`, which walks the set by its consuming
/// iterator: the vector holds every item of the set once, in an order that
/// nothing promises.
#[verifier::external_body]
fn set_into_vec<K>(s: HashSet<K>) -> (v: Vec<K>)
    ensures
        obeys_key_model::<K>() ==> v@.no_duplicates() && v@.to_set() == s@,
{
    Vec::from_iter(s)
}

/// Whether `v` lists the entries of `m`: every entry once, each key with its
/// value.
pub open spec fn lists_entries<K, V>(v: Seq<(K, V)>, m: Map<K, V>) -> bool {
    &&& forall|i: int, j: int| 0 <= i < j < v.len() ==> (#[trigger] v[i]).0 != (#[trigger] v[j]).0
    &&& forall|i: int|
        0 <= i < v.len() ==> m.contains_key((#[trigger] v[i]).0) && m[v[i].0] == v[i].1
    &&& forall|k: K| #[trigger]
        m.contains_key(k) ==> exists|i: int| 0 <= i < v.len() && (#[trigger] v[i]).0 == k
}

/// `Vec::from_iter` on a `HashMap`, which walks the map by its consuming
/// iterator: the vector holds every entry of the map once, each key with
/// its value, in an order that nothing promises.
#[verifier::external_body]
fn map_into_vec<K, V>(m: HashMap<K, V>) -> (v: Vec<(K, V)>)
    ensures
        obeys_key_model::<K>() ==> lists_entries(v@, m@),
{
    Vec::from_iter(m)
}

impl<From, To> Coerce<HashSet<To>> for HashSet<From> where From: CoerceKey<To>, To: Eq + Hash {
    fn coerce_into(self) -> (r: HashSet<To>)
        ensures
            obeys_key_model::<From>() && obeys_key_model::<To>() ==> coerces_set(self@, r@),
    {
        broadcast use vstd::std_specs::hash::group_hash_axioms;

        let ghost from = self@;
        let items = set_into_vec(self);
        let ghost listed = items@;
        let mut out: HashSet<To> = HashSet::new();
        for x in it: items.into_iter()
            invariant
                it.seq() == listed,
                obeys_key_model::<To>() ==> forall|t: To|
                    out@.contains(t) ==> #[trigger] has_origin(
                        listed.take(it.index()).to_set(),
                        t,
                    ),
                obeys_key_model::<To>() ==> forall|j: int|
                    0 <= j < it.index() ==> #[trigger] has_image(listed[j], out@),
        {
            let ghost before = out@;
            let ghost n = it.index();
            let ghost seen = listed.take(n).to_set();
            let ghost seen_now = listed.take(n + 1).to_set();
            let t = x.coerce_into();
            out.insert(t);
            proof {
                if obeys_key_model::<To>() {
                    assert(out@ == before.insert(t));
                    assert(coerces_to(listed[n], t));
                    assert(listed.take(n + 1)[n] == listed[n]);
                    assert(seen_now.contains(listed[n]));
                    assert forall|f: From| seen.contains(f) implies seen_now.contains(f) by {
                        let j = choose|j: int| 0 <= j < n && listed.take(n)[j] == f;
                        assert(listed.take(n + 1)[j] == f);
                    }
                    assert forall|t2: To| out@.contains(t2) implies #[trigger] has_origin(
                        seen_now,
                        t2,
                    ) by {
                        if t2 == t {
                            assert(seen_now.contains(listed[n]) && coerces_to(listed[n], t2));
                        } else {
                            assert(before.contains(t2));
                            assert(has_origin(seen, t2));
                            let f = choose|f: From| seen.contains(f) && coerces_to(f, t2);
                            assert(seen_now.contains(f) && coerces_to(f, t2));
                        }
                    }
                    assert forall|j: int| 0 <= j < n + 1 implies #[trigger] has_image(
                        listed[j],
                        out@,
                    ) by {
                        if j == n {
                            assert(out@.contains(t) && coerces_to(listed[j], t));
                        } else {
                            assert(has_image(listed[j], before));
                            let t2 = choose|t2: To| before.contains(t2) && coerces_to(listed[j], t2);
                            assert(out@.contains(t2) && coerces_to(listed[j], t2));
                        }
                    }
                }
            }
        }
        proof {
            if obeys_key_model::<From>() && obeys_key_model::<To>() {
                assert(listed.take(listed.len() as int) == listed);
                assert forall|f: From| from.contains(f) implies #[trigger] has_image(f, out@) by {
                    assert(listed.to_set().contains(f));
                    let j = choose|j: int| 0 <= j < listed.len() && listed[j] == f;
                    assert(has_image(listed[j], out@));
                }
            }
        }
        out
    }
}

impl<FromK, FromV, ToK, ToV> Coerce<HashMap<ToK, ToV>> for HashMap<FromK, FromV> where
    FromK: CoerceKey<ToK>,
    FromV: Coerce<ToV>,
    ToK: Eq + Hash,
 {
    fn coerce_into(self) -> (r: HashMap<ToK, ToV>)
        ensures
            obeys_key_model::<FromK>() && obeys_key_model::<ToK>() ==> coerces_map(self@, r@),
    {
        broadcast use vstd::std_specs::hash::group_hash_axioms;

        let ghost from = self@;
        let items = map_into_vec(self);
        let ghost listed = items@;
        let mut out: HashMap<ToK, ToV> = HashMap::new();
        for x in it: items.into_iter()
            invariant
                it.seq() == listed,
                obeys_key_model::<FromK>() ==> lists_entries(listed, from),
                obeys_key_model::<FromK>() && obeys_key_model::<ToK>() ==> forall|tk: ToK|
                    out@.contains_key(tk) ==> #[trigger] has_entry_origin(from, tk, out@[tk]),
                obeys_key_model::<ToK>() ==> forall|j: int|
                    0 <= j < it.index() ==> #[trigger] has_key_image(listed[j].0, out@),
        {
            let ghost before = out@;
            let ghost n = it.index();
            let ghost entry = listed[n];
            let (fk, fv) = x;
            let tk = fk.coerce_into();
            let tv = fv.coerce_into();
            out.insert(tk, tv);
            proof {
                if obeys_key_model::<ToK>() {
                    assert(out@ == before.insert(tk, tv));
                    assert(coerces_to(entry.0, tk) && coerces_to(entry.1, tv));
                    if obeys_key_model::<FromK>() {
                        assert(from.contains_key(listed[n].0) && from[listed[n].0] == listed[n].1);
                        assert forall|tk2: ToK| out@.contains_key(tk2) implies #[trigger]
                            has_entry_origin(from, tk2, out@[tk2]) by {
                            if tk2 == tk {
                                assert(from.contains_key(entry.0) && coerces_to(entry.0, tk2)
                                    && coerces_to(from[entry.0], out@[tk2]));
                            } else {
                                assert(before.contains_key(tk2));
                                assert(has_entry_origin(from, tk2, before[tk2]));
                            }
                        }
                    }
                    assert forall|j: int| 0 <= j < n + 1 implies #[trigger] has_key_image(
                        listed[j].0,
                        out@,
                    ) by {
                        if j == n {
                            assert(out@.contains_key(tk) && coerces_to(listed[j].0, tk));
                        } else {
                            assert(has_key_image(listed[j].0, before));
                            let tk2 = choose|tk2: ToK|
                                before.contains_key(tk2) && coerces_to(listed[j].0, tk2);
                            assert(out@.contains_key(tk2) && coerces_to(listed[j].0, tk2));
                        }
                    }
                }
            }
        }
        proof {
            if obeys_key_model::<FromK>() && obeys_key_model::<ToK>() {
                assert forall|fk: FromK| from.contains_key(fk) implies #[trigger] has_key_image(
                    fk,
                    out@,
                ) by {
                    let j = choose|j: int| 0 <= j < listed.len() && listed[j].0 == fk;
                    assert(has_key_image(listed[j].0, out@));
                }
            }
        }
        out
    }
}

/// A `String` taken for a `String` is the same string.
pub proof fn lemma_coerce_string(x: String, r: String)
    requires
        coerces_to::<String, String>(x, r),
    ensures
        r == x,
{
}

/// Where `From` converts to `To`, a vector of `From` converts to a vector of
/// `To` that has as many items, each the conversion of the item that stood
/// in its place.
pub proof fn lemma_coerce_vec<From: Coerce<To>, To>(v: Vec<From>, r: Vec<To>)
    requires
        coerces_to::<Vec<From>, Vec<To>>(v, r),
    ensures
        r@.len() == v@.len(),
        forall|i: int| 0 <= i < v@.len() ==> coerces_to(v@[i], #[trigger] r@[i]),
{
}

/// A box converts by its content.
pub proof fn lemma_coerce_box<From: Coerce<To>, To>(b: Box<From>, r: Box<To>)
    requires
        coerces_to::<Box<From>, Box<To>>(b, r),
    ensures
        coerces_to(*b, *r),
{
}

/// A pair converts component by component.
pub proof fn lemma_coerce_pair<From1: Coerce<To1>, From2: Coerce<To2>, To1, To2>(
    p: (From1, From2),
    r: (To1, To2),
)
    requires
        coerces_to::<(From1, From2), (To1, To2)>(p, r),
    ensures
        coerces_to(p.0, r.0),
        coerces_to(p.1, r.1),
{
}

} // verus!
