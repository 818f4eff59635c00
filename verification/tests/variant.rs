use gazebo::variant::derive_unpack_variants;
use gazebo::variant::derive_variant_names;
use gazebo::variant::to_snake_case;
use gazebo::variant::Data;
use gazebo::variant::DeriveInput;
use gazebo::variant::Field;
use gazebo::variant::Fields;
use gazebo::variant::Variant;
use gazebo::variants::VariantName;

fn named(name: &str, ty: &str) -> Field {
    Field { ident: Some(name.to_owned()), ty: ty.to_owned() }
}

fn unnamed(ty: &str) -> Field {
    Field { ident: None, ty: ty.to_owned() }
}

fn variant(name: &str, fields: Fields) -> Variant {
    Variant { ident: name.to_owned(), fields }
}

fn plain_enum(name: &str, variants: Vec<Variant>) -> DeriveInput {
    DeriveInput {
        ident: name.to_owned(),
        impl_generics: String::new(),
        ty_generics: String::new(),
        where_clause: String::new(),
        data: Data::Enum(variants),
    }
}

fn shape() -> DeriveInput {
    DeriveInput {
        ident: "Shape".to_owned(),
        impl_generics: "<T>".to_owned(),
        ty_generics: "<T>".to_owned(),
        where_clause: "where T: Clone".to_owned(),
        data: Data::Enum(vec![
            variant("Unit", Fields::Unit),
            variant("Tuple", Fields::Unnamed(vec![unnamed("T"), unnamed("u8")])),
            variant("Named", Fields::Named(vec![named("width", "u32")])),
            variant("One", Fields::Unnamed(vec![unnamed("String")])),
        ]),
    }
}

#[test]
fn snake_case_of_camel_case() {
    assert_eq!(to_snake_case("FooBar"), "foo_bar");
    assert_eq!(to_snake_case("Foo"), "foo");
    assert_eq!(to_snake_case("fooBar"), "foo_bar");
    assert_eq!(to_snake_case("MyVariantName"), "my_variant_name");
}

#[test]
fn snake_case_edges() {
    assert_eq!(to_snake_case(""), "");
    assert_eq!(to_snake_case("X"), "x");
    assert_eq!(to_snake_case("x"), "x");
    assert_eq!(to_snake_case("ABC"), "a_b_c");
    assert_eq!(to_snake_case("HTTPServer"), "h_t_t_p_server");
    assert_eq!(to_snake_case("already_snake"), "already_snake");
    assert_eq!(to_snake_case("V2Ray"), "v2_ray");
    assert_eq!(to_snake_case("_Lead"), "__lead");
    assert_eq!(to_snake_case("Trailing_"), "trailing_");
}

#[test]
fn snake_case_leaves_letters_outside_ascii() {
    assert_eq!(to_snake_case("\u{c9}t\u{e9}"), "\u{c9}t\u{e9}");
    assert_eq!(to_snake_case("a\u{c9}B"), "a\u{c9}_b");
    assert_eq!(to_snake_case("@Z[`az{"), "@_z[`az{");
}

#[test]
fn variant_names_of_every_kind_of_variant() {
    let expected = concat_all(&[
        "impl <T> gazebo::variants::VariantName for Shape <T> where T: Clone",
        " { fn variant_name(&self) -> &'static str { match self { ",
        "Self::Unit  => \"Unit\", ",
        "Self::Tuple (..) => \"Tuple\", ",
        "Self::Named {..} => \"Named\", ",
        "Self::One (..) => \"One\", ",
        "} } }",
    ]);
    assert_eq!(derive_variant_names(&shape()), expected);
}

fn concat_all(parts: &[&str]) -> String {
    let mut out = String::new();
    for p in parts {
        out.push_str(p);
    }
    out
}

#[test]
fn variant_names_of_an_enum_without_variants() {
    let input = plain_enum("Never", Vec::new());
    assert_eq!(
        derive_variant_names(&input),
        "impl  gazebo::variants::VariantName for Never   { fn variant_name(&self) -> &'static str { match self { } } }"
    );
}

#[test]
fn unpack_of_every_kind_of_variant() {
    let expected = concat_all(&[
        "impl <T> Shape <T> where T: Clone { ",
        "pub fn unpack_unit<'a>(&'a self) -> Option<()> ",
        "{ match self { Self::Unit  => Some(()), _ => None } } ",
        "pub fn unpack_tuple<'a>(&'a self) -> Option<(&'a T, &'a u8, )> ",
        "{ match self { Self::Tuple ( _v0, _v1, ) => Some((_v0, _v1, )), _ => None } } ",
        "pub fn unpack_named<'a>(&'a self) -> Option<&'a u32> ",
        "{ match self { Self::Named { width, } => Some(width), _ => None } } ",
        "pub fn unpack_one<'a>(&'a self) -> Option<&'a String> ",
        "{ match self { Self::One ( _v0, ) => Some(_v0), _ => None } } ",
        "}",
    ]);
    assert_eq!(derive_unpack_variants(&shape()), expected);
}

#[test]
fn unpack_of_an_enum_without_variants() {
    let input = plain_enum("Never", Vec::new());
    assert_eq!(derive_unpack_variants(&input), "impl  Never   { }");
}

#[test]
fn unpack_names_methods_in_snake_case() {
    let input = plain_enum("E", vec![variant("FooBarBaz", Fields::Unit)]);
    let out = derive_unpack_variants(&input);
    assert!(out.contains("pub fn unpack_foo_bar_baz<'a>(&'a self) -> Option<()>"));
    assert!(out.contains("Self::FooBarBaz  => Some(())"));
}

#[test]
fn unpack_of_several_named_fields_gives_a_tuple() {
    let input = plain_enum(
        "E",
        vec![variant("Pair", Fields::Named(vec![named("left", "A"), named("right", "Vec<B>")]))],
    );
    assert_eq!(
        derive_unpack_variants(&input),
        concat_all(&[
            "impl  E   { ",
            "pub fn unpack_pair<'a>(&'a self) -> Option<(&'a A, &'a Vec<B>, )> ",
            "{ match self { Self::Pair { left, right, } => Some((left, right, )), _ => None } } ",
            "}",
        ])
    );
}

#[test]
fn unpack_numbers_nameless_fields_in_decimal() {
    let mut fields = Vec::new();
    for _ in 0..12 {
        fields.push(unnamed("u8"));
    }
    let input = plain_enum("E", vec![variant("Wide", Fields::Unnamed(fields))]);
    let out = derive_unpack_variants(&input);
    assert!(out.contains(
        "Self::Wide ( _v0, _v1, _v2, _v3, _v4, _v5, _v6, _v7, _v8, _v9, _v10, _v11, ) => "
    ));
    assert!(out.contains("Some((_v0, _v1, _v2, _v3, _v4, _v5, _v6, _v7, _v8, _v9, _v10, _v11, ))"));
}

#[test]
fn unpack_counts_only_nameless_fields() {
    let input = plain_enum(
        "E",
        vec![
            variant("Mixed", Fields::Unnamed(vec![unnamed("A"), named("x", "B"), unnamed("C")])),
            variant("Next", Fields::Unnamed(vec![unnamed("D")])),
        ],
    );
    let out = derive_unpack_variants(&input);
    assert!(out.contains("Self::Mixed ( _v0, x, _v1, ) => Some((_v0, x, _v1, ))"));
    assert!(out.contains("Self::Next ( _v0, ) => Some(_v0)"));
}

#[test]
fn unpack_of_an_empty_tuple_variant() {
    let input = plain_enum("E", vec![variant("Empty", Fields::Unnamed(Vec::new()))]);
    assert_eq!(
        derive_unpack_variants(&input),
        concat_all(&[
            "impl  E   { ",
            "pub fn unpack_empty<'a>(&'a self) -> Option<()> ",
            "{ match self { Self::Empty ( ) => Some(()), _ => None } } ",
            "}",
        ])
    );
}

#[test]
fn written_impls_are_rust() {
    let names: syn::ItemImpl = syn::parse_str(&derive_variant_names(&shape())).unwrap();
    assert!(names.trait_.is_some());
    assert_eq!(names.items.len(), 1);
    let unpack: syn::ItemImpl = syn::parse_str(&derive_unpack_variants(&shape())).unwrap();
    assert!(unpack.trait_.is_none());
    assert_eq!(unpack.items.len(), 4);
    let mut methods = Vec::new();
    for item in &unpack.items {
        match item {
            syn::ImplItem::Method(m) => methods.push(m.sig.ident.to_string()),
            _ => panic!("only methods are written"),
        }
    }
    assert_eq!(methods, vec!["unpack_unit", "unpack_tuple", "unpack_named", "unpack_one"]);
}

#[derive(Debug, PartialEq)]
enum Sample<T> {
    Unit,
    Tuple(T, u8),
    Named { width: u32 },
    One(String),
}

fn sample() -> DeriveInput {
    DeriveInput {
        ident: "Sample".to_owned(),
        impl_generics: "<T>".to_owned(),
        ty_generics: "<T>".to_owned(),
        where_clause: String::new(),
        data: Data::Enum(vec![
            variant("Unit", Fields::Unit),
            variant("Tuple", Fields::Unnamed(vec![unnamed("T"), unnamed("u8")])),
            variant("Named", Fields::Named(vec![named("width", "u32")])),
            variant("One", Fields::Unnamed(vec![unnamed("String")])),
        ]),
    }
}

// The two impls below are, token for token, what the derives write for
// `Sample`: the first test holds them to that, the others run them.
impl <T> gazebo::variants::VariantName for Sample <T>  { fn variant_name(&self) -> &'static str { match self { Self::Unit  => "Unit", Self::Tuple (..) => "Tuple", Self::Named {..} => "Named", Self::One (..) => "One", } } }

impl <T> Sample <T>  { pub fn unpack_unit<'a>(&'a self) -> Option<()> { match self { Self::Unit  => Some(()), _ => None } } pub fn unpack_tuple<'a>(&'a self) -> Option<(&'a T, &'a u8, )> { match self { Self::Tuple ( _v0, _v1, ) => Some((_v0, _v1, )), _ => None } } pub fn unpack_named<'a>(&'a self) -> Option<&'a u32> { match self { Self::Named { width, } => Some(width), _ => None } } pub fn unpack_one<'a>(&'a self) -> Option<&'a String> { match self { Self::One ( _v0, ) => Some(_v0), _ => None } } }

#[test]
fn derives_write_the_impls_of_the_sample() {
    assert_eq!(
        derive_variant_names(&sample()),
        "impl <T> gazebo::variants::VariantName for Sample <T>  { fn variant_name(&self) -> &'static str { match self { Self::Unit  => \"Unit\", Self::Tuple (..) => \"Tuple\", Self::Named {..} => \"Named\", Self::One (..) => \"One\", } } }"
    );
    assert_eq!(
        derive_unpack_variants(&sample()),
        "impl <T> Sample <T>  { pub fn unpack_unit<'a>(&'a self) -> Option<()> { match self { Self::Unit  => Some(()), _ => None } } pub fn unpack_tuple<'a>(&'a self) -> Option<(&'a T, &'a u8, )> { match self { Self::Tuple ( _v0, _v1, ) => Some((_v0, _v1, )), _ => None } } pub fn unpack_named<'a>(&'a self) -> Option<&'a u32> { match self { Self::Named { width, } => Some(width), _ => None } } pub fn unpack_one<'a>(&'a self) -> Option<&'a String> { match self { Self::One ( _v0, ) => Some(_v0), _ => None } } }"
    );
}

#[test]
fn written_variant_name_names_the_variant() {
    assert_eq!(Sample::<i8>::Unit.variant_name(), "Unit");
    assert_eq!(Sample::Tuple(1i8, 2).variant_name(), "Tuple");
    assert_eq!(Sample::<i8>::Named { width: 3 }.variant_name(), "Named");
    assert_eq!(Sample::<i8>::One("x".to_owned()).variant_name(), "One");
}

#[test]
fn written_unpack_gives_the_fields_of_its_variant_only() {
    let unit = Sample::<i8>::Unit;
    let tuple = Sample::Tuple(1i8, 2);
    let named = Sample::<i8>::Named { width: 3 };
    let one = Sample::<i8>::One("x".to_owned());
    assert_eq!(unit.unpack_unit(), Some(()));
    assert_eq!(tuple.unpack_unit(), None);
    assert_eq!(tuple.unpack_tuple(), Some((&1, &2)));
    assert_eq!(unit.unpack_tuple(), None);
    assert_eq!(named.unpack_named(), Some(&3));
    assert_eq!(one.unpack_named(), None);
    assert_eq!(one.unpack_one(), Some(&"x".to_owned()));
    assert_eq!(named.unpack_one(), None);
}
