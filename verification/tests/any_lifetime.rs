use gazebo::any_lifetime::derive_any_lifetime;
use gazebo::any_lifetime::Declaration;
use gazebo::any_lifetime::DeriveError;
use gazebo::any_lifetime::GenericParam;
use gazebo::any_lifetime::Kind;
use gazebo::any::AnyLifetime;
use std::any::TypeId;
use std::fmt::Display;

fn lifetime(name: &str) -> GenericParam {
    GenericParam::Lifetime { name: name.to_owned() }
}

fn type_param(name: &str, bounds: &str) -> GenericParam {
    GenericParam::Type { name: name.to_owned(), bounds: bounds.to_owned() }
}

fn const_param(name: &str, ty: &str) -> GenericParam {
    GenericParam::Const { name: name.to_owned(), ty: ty.to_owned() }
}

fn declaration(kind: Kind, name: &str, params: Vec<GenericParam>) -> Declaration {
    Declaration { ident: name.to_owned(), kind, params }
}

fn written(d: &Declaration) -> String {
    match derive_any_lifetime(d) {
        Ok(text) => text,
        Err(e) => panic!("no impl was written: {:?}", e),
    }
}

#[test]
fn type_without_parameters_is_its_own_static_form() {
    let d = declaration(Kind::Struct, "Aaa", Vec::new());
    assert_eq!(
        written(&d),
        "impl <> gazebo::any::ProvidesStaticType for Aaa <> where { type StaticType = Aaa <>; } impl <> gazebo::any::Identified for Aaa <> { }"
    );
}

#[test]
fn lifetimes_become_static() {
    let d = declaration(Kind::Struct, "Bbb", vec![lifetime("'a")]);
    assert_eq!(
        written(&d),
        "impl <'a, > gazebo::any::ProvidesStaticType for Bbb <'a, > where { type StaticType = Bbb <'static, >; } impl <> gazebo::any::Identified for Bbb <'static, > { }"
    );
    let d = declaration(Kind::Enum, "Bbb2", vec![lifetime("'a"), lifetime("'b")]);
    assert_eq!(
        written(&d),
        "impl <'a, 'b, > gazebo::any::ProvidesStaticType for Bbb2 <'a, 'b, > where { type StaticType = Bbb2 <'static, 'static, >; } impl <> gazebo::any::Identified for Bbb2 <'static, 'static, > { }"
    );
}

#[test]
fn type_parameters_give_their_own_static_form() {
    let d = declaration(Kind::Struct, "Ccc", vec![type_param("X", "")]);
    assert_eq!(
        written(&d),
        "impl <X: gazebo::any::ProvidesStaticType, > gazebo::any::ProvidesStaticType for Ccc <X, > where X::StaticType: Sized, { type StaticType = Ccc <X::StaticType, >; } impl <X: gazebo::any::Identified, > gazebo::any::Identified for Ccc <X, > { }"
    );
}

#[test]
fn bounds_are_asked_of_the_static_form_too() {
    let d = declaration(Kind::Struct, "TypeWithConstraint", vec![type_param("T", "Display")]);
    assert_eq!(
        written(&d),
        "impl <T: Display + gazebo::any::ProvidesStaticType, > gazebo::any::ProvidesStaticType for TypeWithConstraint <T, > where T::StaticType: Display + Sized, { type StaticType = TypeWithConstraint <T::StaticType, >; } impl <T: Display + gazebo::any::Identified, > gazebo::any::Identified for TypeWithConstraint <T, > { }"
    );
}

#[test]
fn lifetime_type_and_constant_together() {
    let d = declaration(
        Kind::Struct,
        "LifetimeTypeConst",
        vec![lifetime("'a"), type_param("T", ""), const_param("N", "usize")],
    );
    assert_eq!(
        written(&d),
        "impl <'a, T: gazebo::any::ProvidesStaticType, const N: usize, > gazebo::any::ProvidesStaticType for LifetimeTypeConst <'a, T, N, > where T::StaticType: Sized, { type StaticType = LifetimeTypeConst <'static, T::StaticType, N, >; } impl <T: gazebo::any::Identified, const N: usize, > gazebo::any::Identified for LifetimeTypeConst <'static, T, N, > { }"
    );
}

#[test]
fn union_is_refused() {
    let d = declaration(Kind::Union, "Bits", vec![lifetime("'a")]);
    assert_eq!(derive_any_lifetime(&d).unwrap_err(), DeriveError::Union);
    let d = declaration(Kind::Union, "Plain", Vec::new());
    assert_eq!(derive_any_lifetime(&d).unwrap_err(), DeriveError::Union);
}

fn impls_of(d: &Declaration) -> Vec<syn::ItemImpl> {
    let file: syn::File = syn::parse_str(&written(d)).unwrap();
    let mut impls = Vec::new();
    for item in file.items {
        match item {
            syn::Item::Impl(i) => impls.push(i),
            _ => panic!("only impls are written"),
        }
    }
    impls
}

#[test]
fn written_witness_is_rust() {
    let d = declaration(
        Kind::Enum,
        "Mixed",
        vec![
            lifetime("'a"),
            lifetime("'b"),
            type_param("T", "Display + Clone"),
            type_param("U", ""),
            const_param("N", "usize"),
        ],
    );
    let impls = impls_of(&d);
    assert_eq!(impls.len(), 2);
    let witness = &impls[0];
    assert!(witness.trait_.is_some());
    assert_eq!(witness.generics.params.len(), 5);
    assert_eq!(witness.generics.lifetimes().count(), 2);
    assert_eq!(witness.generics.type_params().count(), 2);
    assert_eq!(witness.generics.const_params().count(), 1);
    assert_eq!(witness.generics.where_clause.as_ref().unwrap().predicates.len(), 2);
    assert_eq!(witness.items.len(), 1);
    let identified = &impls[1];
    assert!(identified.trait_.is_some());
    assert_eq!(identified.generics.lifetimes().count(), 0);
    assert_eq!(identified.generics.type_params().count(), 2);
    assert_eq!(identified.generics.const_params().count(), 1);
    assert_eq!(identified.items.len(), 0);
    for d in [
        declaration(Kind::Struct, "Aaa", Vec::new()),
        declaration(Kind::Struct, "Bbb", vec![lifetime("'a")]),
    ] {
        assert_eq!(impls_of(&d).len(), 2);
    }
}

struct Holder<'a, T: Display, const N: usize>([&'a T; N]);

// Token for token what the derive writes for `Holder`: the test holds it to
// that, and asks the identities that follow from it.
impl <'a, T: Display + gazebo::any::ProvidesStaticType, const N: usize, > gazebo::any::ProvidesStaticType for Holder <'a, T, N, > where T::StaticType: Display + Sized, { type StaticType = Holder <'static, T::StaticType, N, >; } impl <T: Display + gazebo::any::Identified, const N: usize, > gazebo::any::Identified for Holder <'static, T, N, > { }

#[test]
fn written_witness_gives_the_identity_of_the_static_form() {
    let d = declaration(
        Kind::Struct,
        "Holder",
        vec![lifetime("'a"), type_param("T", "Display"), const_param("N", "usize")],
    );
    assert_eq!(
        written(&d),
        "impl <'a, T: Display + gazebo::any::ProvidesStaticType, const N: usize, > gazebo::any::ProvidesStaticType for Holder <'a, T, N, > where T::StaticType: Display + Sized, { type StaticType = Holder <'static, T::StaticType, N, >; } impl <T: Display + gazebo::any::Identified, const N: usize, > gazebo::any::Identified for Holder <'static, T, N, > { }"
    );
    let text = String::from("borrowed");
    let holder = Holder([&text, &text]);
    assert_eq!(holder.0.len(), 2);
    assert_eq!(holder.static_type_of(), TypeId::of::<Holder<'static, String, 2>>());
    assert_eq!(Holder::<String, 2>::static_type_id(), TypeId::of::<Holder<'static, String, 2>>());
    assert_ne!(Holder::<String, 2>::static_type_id(), Holder::<String, 3>::static_type_id());
    assert_ne!(Holder::<String, 2>::static_type_id(), Holder::<u8, 2>::static_type_id());
    let r: &dyn AnyLifetime = &holder;
    assert!(r.is::<Holder<String, 2>>());
    assert!(!r.is::<Holder<String, 3>>());
}
