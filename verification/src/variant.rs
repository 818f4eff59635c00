//! The code that the enum derives write.
//!
//! A derive reads the declaration of an enum and answers with an `impl`
//! block. Here the declaration is a [`DeriveInput`] of plain values and the
//! answer is source text: `derive_variant_names` writes the `VariantName`
//! impl, `derive_unpack_variants` one `unpack_` method per variant.

use vstd::prelude::*;
use vstd::string::StringExecFns;

verus! {

/// A field of a variant.
#[derive(Debug)]
pub struct Field {
    /// The name of the field, where it has one.
    pub ident: Option<String>,
    /// The type of the field, as source text.
    pub ty: String,
}

/// The fields of a variant.
#[derive(Debug)]
pub enum Fields {
    /// Fields in braces, with names.
    Named(Vec<Field>),
    /// Fields in parentheses, without names.
    Unnamed(Vec<Field>),
    /// No fields.
    Unit,
}

/// A variant of an enum.
#[derive(Debug)]
pub struct Variant {
    /// The name of the variant.
    pub ident: String,
    /// Its fields.
    pub fields: Fields,
}

/// What a declaration declares.
#[derive(Debug)]
pub enum Data {
    Struct,
    /// An enum, with its variants in the order of the declaration.
    Enum(Vec<Variant>),
    Union,
}

/// The declaration that a derive is applied to.
#[derive(Debug)]
pub struct DeriveInput {
    /// The name of the type.
    pub ident: String,
    /// The generics as they stand behind `impl`, as source text.
    pub impl_generics: String,
    /// The generics as they stand behind the name of the type.
    pub ty_generics: String,
    /// The `where` clause, or nothing.
    pub where_clause: String,
    /// The body of the declaration.
    pub data: Data,
}

/// Whether `c` is one of the ASCII capitals `A` to `Z`.
pub open spec fn is_ascii_upper(c: char) -> bool {
    'A' <= c <= 'Z'
}

/// The ASCII lower-case form of `c`: capitals move to their small letter,
/// every other character stays.
pub open spec fn ascii_lower(c: char) -> char {
    if is_ascii_upper(c) {
        ((c as u32) + 32) as char
    } else {
        c
    }
}

/// What the character `c` at position `i` contributes to the snake-case
/// form: a capital gives its small letter, after an underscore unless it
/// stands first; any other character gives itself.
pub open spec fn snake_piece(i: int, c: char) -> Seq<char> {
    if is_ascii_upper(c) {
        if i > 0 {
            seq!['_', ascii_lower(c)]
        } else {
            seq![ascii_lower(c)]
        }
    } else {
        seq![c]
    }
}

/// The snake-case form of `s`: the pieces of its characters, in order.
pub open spec fn snake_case(s: Seq<char>) -> Seq<char>
    decreases s.len(),
{
    if s.len() == 0 {
        Seq::empty()
    } else {
        snake_case(s.drop_last()) + snake_piece(s.len() - 1, s.last())
    }
}

fn is_upper(c: char) -> (b: bool)
    ensures
        b == is_ascii_upper(c),
{
    'A' <= c && c <= 'Z'
}

fn to_lower(c: char) -> (r: char)
    ensures
        r == ascii_lower(c),
{
    if is_upper(c) {
        (c as u8 + 32) as char
    } else {
        c
    }
}

/// `String::push` appends the character to the end of the string.
#[verifier::external_body]
fn push_char(out: &mut String, c: char)
    ensures
        final(out)@ == old(out)@.push(c),
{
    out.push(c)
}

/// Turns a `CamelCase` name into `snake_case`.
pub fn to_snake_case(s: &str) -> (out: String)
    ensures
        out@ == snake_case(s@),
{
    let mut out = String::new();
    let mut is_first = true;
    for c in it: s.chars()
        invariant
            it.seq() == s@,
            is_first == (it.index() == 0),
            out@ == snake_case(s@.take(it.index())),
    {
        proof {
            let n = it.index();
            assert(s@.take(n + 1).drop_last() == s@.take(n));
        }
        if is_upper(c) {
            if !is_first {
                push_char(&mut out, '_');
            }
            push_char(&mut out, to_lower(c));
        } else {
            push_char(&mut out, c);
        }
        is_first = false;
    }
    proof {
        assert(s@.take(s@.len() as int) == s@);
    }
    out
}

/// The character of the decimal digit `d`.
pub open spec fn digit_char(d: nat) -> char {
    (48 + d) as char
}

/// `n` in decimal, without leading zeros.
pub open spec fn decimal(n: nat) -> Seq<char>
    decreases n,
{
    if n < 10 {
        seq![digit_char(n)]
    } else {
        decimal(n / 10).push(digit_char(n % 10))
    }
}

fn push_decimal(out: &mut String, n: usize)
    ensures
        final(out)@ == old(out)@ + decimal(n as nat),
    decreases n,
{
    if n >= 10 {
        push_decimal(out, n / 10);
    }
    let d: usize = n % 10;
    push_char(out, (48u8 + d as u8) as char);
}

/// The fields of a variant as a sequence: none for a unit variant.
pub open spec fn field_seq(fields: Fields) -> Seq<Field> {
    match fields {
        Fields::Named(fs) => fs@,
        Fields::Unnamed(fs) => fs@,
        Fields::Unit => Seq::empty(),
    }
}

/// How many of `fields` have no name.
pub open spec fn count_unnamed(fields: Seq<Field>) -> nat
    decreases fields.len(),
{
    if fields.len() == 0 {
        0
    } else {
        count_unnamed(fields.drop_last()) + if fields.last().ident is None {
            1nat
        } else {
            0nat
        }
    }
}

/// The name that the field at `i` is bound to in a pattern: its own name,
/// or `_v` and the number of nameless fields before it.
pub open spec fn binding_name(fields: Seq<Field>, i: int) -> Seq<char> {
    match fields[i].ident {
        Some(name) => name@,
        None => "_v"@ + decimal(count_unnamed(fields.take(i))),
    }
}

/// The binding names of the first `n` fields, each followed by a comma.
pub open spec fn bindings_listed(fields: Seq<Field>, n: int) -> Seq<char>
    decreases n,
{
    if n <= 0 {
        Seq::empty()
    } else {
        bindings_listed(fields, n - 1) + binding_name(fields, n - 1) + ", "@
    }
}

/// The types of the first `n` fields, each borrowed for `'a` and followed
/// by a comma.
pub open spec fn borrows_listed(fields: Seq<Field>, n: int) -> Seq<char>
    decreases n,
{
    if n <= 0 {
        Seq::empty()
    } else {
        borrows_listed(fields, n - 1) + "&'a "@ + fields[n - 1].ty@ + ", "@
    }
}

/// The pattern that stands behind the name of a variant where its fields
/// are of no interest.
pub open spec fn ignoring_pattern(fields: Fields) -> Seq<char> {
    match fields {
        Fields::Unit => Seq::empty(),
        Fields::Named(_) => "{..}"@,
        Fields::Unnamed(_) => "(..)"@,
    }
}

/// One arm of `variant_name`: the variant, whatever its fields, gives its
/// name as a string.
pub open spec fn name_arm(v: Variant) -> Seq<char> {
    "Self::"@ + v.ident@ + " "@ + ignoring_pattern(v.fields) + " => \""@ + v.ident@ + "\", "@
}

/// The arms of the first `n` variants.
pub open spec fn name_arms(variants: Seq<Variant>, n: int) -> Seq<char>
    decreases n,
{
    if n <= 0 {
        Seq::empty()
    } else {
        name_arms(variants, n - 1) + name_arm(variants[n - 1])
    }
}

/// The variants of an enum; none for another declaration.
pub open spec fn variant_seq(data: Data) -> Seq<Variant> {
    match data {
        Data::Enum(vs) => vs@,
        _ => Seq::empty(),
    }
}

/// The `VariantName` impl for the enum `input`.
pub open spec fn variant_names_impl(input: DeriveInput) -> Seq<char> {
    "impl "@ + input.impl_generics@ + " gazebo::variants::VariantName for "@ + input.ident@ + " "@
        + input.ty_generics@ + " "@ + input.where_clause@
        + " { fn variant_name(&self) -> &'static str { match self { "@ + name_arms(
        variant_seq(input.data),
        variant_seq(input.data).len() as int,
    ) + "} } }"@
}

/// The pattern that binds every field of a variant.
pub open spec fn binding_pattern(fields: Fields) -> Seq<char> {
    let fs = field_seq(fields);
    match fields {
        Fields::Named(_) => "{ "@ + bindings_listed(fs, fs.len() as int) + "}"@,
        Fields::Unnamed(_) => "( "@ + bindings_listed(fs, fs.len() as int) + ")"@,
        Fields::Unit => Seq::empty(),
    }
}

/// What an `unpack_` method hands out: the one field, or a tuple of all.
pub open spec fn unpacked_value(fields: Seq<Field>) -> Seq<char> {
    if fields.len() == 1 {
        binding_name(fields, 0)
    } else {
        "("@ + bindings_listed(fields, fields.len() as int) + ")"@
    }
}

/// The type of what an `unpack_` method hands out.
pub open spec fn unpacked_type(fields: Seq<Field>) -> Seq<char> {
    if fields.len() == 1 {
        "&'a "@ + fields[0].ty@
    } else {
        "("@ + borrows_listed(fields, fields.len() as int) + ")"@
    }
}

/// The `unpack_` method of one variant.
pub open spec fn unpack_fn(v: Variant) -> Seq<char> {
    let fs = field_seq(v.fields);
    "pub fn unpack_"@ + snake_case(v.ident@) + "<'a>(&'a self) -> Option<"@ + unpacked_type(fs)
        + "> { match self { Self::"@ + v.ident@ + " "@ + binding_pattern(v.fields) + " => Some("@
        + unpacked_value(fs) + "), _ => None } } "@
}

/// The `unpack_` methods of the first `n` variants.
pub open spec fn unpack_fns(variants: Seq<Variant>, n: int) -> Seq<char>
    decreases n,
{
    if n <= 0 {
        Seq::empty()
    } else {
        unpack_fns(variants, n - 1) + unpack_fn(variants[n - 1])
    }
}

/// The impl that holds the `unpack_` methods of the enum `input`.
pub open spec fn unpack_variants_impl(input: DeriveInput) -> Seq<char> {
    "impl "@ + input.impl_generics@ + " "@ + input.ident@ + " "@ + input.ty_generics@ + " "@
        + input.where_clause@ + " { "@ + unpack_fns(
        variant_seq(input.data),
        variant_seq(input.data).len() as int,
    ) + "}"@
}

fn fields_of(fields: &Fields) -> (r: Option<&Vec<Field>>)
    ensures
        match r {
            Some(fs) => fs@ == field_seq(*fields) && !(fields is Unit),
            None => fields is Unit && field_seq(*fields).len() == 0,
        },
{
    match fields {
        Fields::Named(fs) => Some(fs),
        Fields::Unnamed(fs) => Some(fs),
        Fields::Unit => None,
    }
}

fn push_binding_name(out: &mut String, field: &Field, unnamed_before: usize)
    ensures
        final(out)@ == old(out)@ + match field.ident {
            Some(name) => name@,
            None => "_v"@ + decimal(unnamed_before as nat),
        },
{
    match &field.ident {
        Some(name) => {
            out.append(name.as_str());
        },
        None => {
            out.append("_v");
            push_decimal(out, unnamed_before);
        },
    }
}

fn push_bindings_listed(out: &mut String, fields: &Vec<Field>)
    ensures
        final(out)@ == old(out)@ + bindings_listed(fields@, fields@.len() as int),
{
    let ghost start = out@;
    let mut count: usize = 0;
    let mut i: usize = 0;
    while i < fields.len()
        invariant
            i <= fields@.len(),
            count == count_unnamed(fields@.take(i as int)),
            count <= i,
            out@ == start + bindings_listed(fields@, i as int),
        decreases fields@.len() - i,
    {
        push_binding_name(out, &fields[i], count);
        out.append(", ");
        proof {
            assert(fields@.take(i + 1).drop_last() == fields@.take(i as int));
        }
        if fields[i].ident.is_none() {
            count += 1;
        }
        i += 1;
    }
}

fn push_borrows_listed(out: &mut String, fields: &Vec<Field>)
    ensures
        final(out)@ == old(out)@ + borrows_listed(fields@, fields@.len() as int),
{
    let ghost start = out@;
    let mut i: usize = 0;
    while i < fields.len()
        invariant
            i <= fields@.len(),
            out@ == start + borrows_listed(fields@, i as int),
        decreases fields@.len() - i,
    {
        out.append("&'a ");
        out.append(fields[i].ty.as_str());
        out.append(", ");
        i += 1;
    }
}

fn push_name_arm(out: &mut String, v: &Variant)
    ensures
        final(out)@ == old(out)@ + name_arm(*v),
{
    out.append("Self::");
    out.append(v.ident.as_str());
    out.append(" ");
    match &v.fields {
        Fields::Unit => {},
        Fields::Named(_) => {
            out.append("{..}");
        },
        Fields::Unnamed(_) => {
            out.append("(..)");
        },
    }
    out.append(" => \"");
    out.append(v.ident.as_str());
    out.append("\", ");
}

fn push_binding_pattern(out: &mut String, fields: &Fields)
    ensures
        final(out)@ == old(out)@ + binding_pattern(*fields),
{
    match fields {
        Fields::Named(fs) => {
            out.append("{ ");
            push_bindings_listed(out, fs);
            out.append("}");
        },
        Fields::Unnamed(fs) => {
            out.append("( ");
            push_bindings_listed(out, fs);
            out.append(")");
        },
        Fields::Unit => {},
    }
}

fn push_unpacked_value(out: &mut String, fields: &Fields)
    ensures
        final(out)@ == old(out)@ + unpacked_value(field_seq(*fields)),
{
    match fields_of(fields) {
        Some(fs) => {
            if fs.len() == 1 {
                push_binding_name(out, &fs[0], 0);
            } else {
                out.append("(");
                push_bindings_listed(out, fs);
                out.append(")");
            }
        },
        None => {
            out.append("(");
            out.append(")");
        },
    }
}

fn push_unpacked_type(out: &mut String, fields: &Fields)
    ensures
        final(out)@ == old(out)@ + unpacked_type(field_seq(*fields)),
{
    match fields_of(fields) {
        Some(fs) => {
            if fs.len() == 1 {
                out.append("&'a ");
                out.append(fs[0].ty.as_str());
            } else {
                out.append("(");
                push_borrows_listed(out, fs);
                out.append(")");
            }
        },
        None => {
            out.append("(");
            out.append(")");
        },
    }
}

fn push_unpack_fn(out: &mut String, v: &Variant)
    ensures
        final(out)@ == old(out)@ + unpack_fn(*v),
{
    let name = to_snake_case(v.ident.as_str());
    out.append("pub fn unpack_");
    out.append(name.as_str());
    out.append("<'a>(&'a self) -> Option<");
    push_unpacked_type(out, &v.fields);
    out.append("> { match self { Self::");
    out.append(v.ident.as_str());
    out.append(" ");
    push_binding_pattern(out, &v.fields);
    out.append(" => Some(");
    push_unpacked_value(out, &v.fields);
    out.append("), _ => None } } ");
}

/// Writes the impl of `gazebo::variants::VariantName` for an enum: a method
/// `variant_name` that gives, for each variant, the name of the variant.
pub fn derive_variant_names(input: &DeriveInput) -> (out: String)
    requires
        input.data is Enum,
    ensures
        out@ == variant_names_impl(*input),
{
    let mut out = String::new();
    out.append("impl ");
    out.append(input.impl_generics.as_str());
    out.append(" gazebo::variants::VariantName for ");
    out.append(input.ident.as_str());
    out.append(" ");
    out.append(input.ty_generics.as_str());
    out.append(" ");
    out.append(input.where_clause.as_str());
    out.append(" { fn variant_name(&self) -> &'static str { match self { ");
    let ghost head = out@;
    match &input.data {
        Data::Enum(variants) => {
            let mut i: usize = 0;
            while i < variants.len()
                invariant
                    i <= variants@.len(),
                    out@ == head + name_arms(variants@, i as int),
                decreases variants@.len() - i,
            {
                push_name_arm(&mut out, &variants[i]);
                i += 1;
            }
        },
        _ => {},
    }
    out.append("} } }");
    out
}

/// Writes an impl for an enum with one method per variant: `unpack_` and
/// the name of the variant in snake case. The method gives references to
/// the fields of the value if it is of that variant, and `None` otherwise.
pub fn derive_unpack_variants(input: &DeriveInput) -> (out: String)
    requires
        input.data is Enum,
    ensures
        out@ == unpack_variants_impl(*input),
{
    let mut out = String::new();
    out.append("impl ");
    out.append(input.impl_generics.as_str());
    out.append(" ");
    out.append(input.ident.as_str());
    out.append(" ");
    out.append(input.ty_generics.as_str());
    out.append(" ");
    out.append(input.where_clause.as_str());
    out.append(" { ");
    let ghost head = out@;
    match &input.data {
        Data::Enum(variants) => {
            let mut i: usize = 0;
            while i < variants.len()
                invariant
                    i <= variants@.len(),
                    out@ == head + unpack_fns(variants@, i as int),
                decreases variants@.len() - i,
            {
                push_unpack_fn(&mut out, &variants[i]);
                i += 1;
            }
        },
        _ => {},
    }
    out.append("}");
    out
}

} // verus!
