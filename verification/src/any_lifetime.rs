//! The code that the `AnyLifetime` derive writes.
//!
//! For a struct or an enum the derive declares the `'static` form of the
//! type: the same type with every lifetime parameter replaced by `'static`
//! and every type parameter by its own `'static` form. It reads the
//! parameter list and nothing else, so it is for types that use their
//! lifetimes in references only; for any other type the impl is written by
//! hand. Beside that impl it writes the one of `Identified` for the
//! `'static` form, which holds for a struct or an enum whose type arguments
//! are `Identified`.

use vstd::prelude::*;
use vstd::string::StringExecFns;

verus! {

/// A parameter of a generic type.
#[derive(Debug)]
pub enum GenericParam {
    /// A lifetime, by its name with the apostrophe, as in `'a`.
    Lifetime { name: String },
    /// A type, by its name and the bounds that its declaration gives it, as
    /// source text; no text where it has none.
    Type { name: String, bounds: String },
    /// A constant, by its name and its type.
    Const { name: String, ty: String },
}

/// What kind of type a declaration declares.
#[derive(Debug, Clone, Copy, PartialEq, Eq, Structural)]
pub enum Kind {
    Struct,
    Enum,
    Union,
}

/// The declaration of a type, as far as the derive reads it.
#[derive(Debug)]
pub struct Declaration {
    /// The name of the type.
    pub ident: String,
    /// Its kind.
    pub kind: Kind,
    /// Its parameters, in the order of the declaration.
    pub params: Vec<GenericParam>,
}

/// Why no impl can be written for a declaration.
#[derive(Debug, Clone, Copy, PartialEq, Eq, Structural)]
pub enum DeriveError {
    /// The type is a union: its fields share their storage, and the derive
    /// cannot tell what a lifetime stands for in them.
    Union,
}

/// The parameter as it is declared behind `impl`: a type parameter has to
/// have a `'static` form of its own.
pub open spec fn declared(p: GenericParam) -> Seq<char> {
    match p {
        GenericParam::Lifetime { name } => name@,
        GenericParam::Type { name, bounds } => if bounds@.len() == 0 {
            name@ + ": gazebo::any::ProvidesStaticType"@
        } else {
            name@ + ": "@ + bounds@ + " + gazebo::any::ProvidesStaticType"@
        },
        GenericParam::Const { name, ty } => "const "@ + name@ + ": "@ + ty@,
    }
}

/// The parameter as an argument of the type itself.
pub open spec fn applied(p: GenericParam) -> Seq<char> {
    match p {
        GenericParam::Lifetime { name } => name@,
        GenericParam::Type { name, bounds } => name@,
        GenericParam::Const { name, ty } => name@,
    }
}

/// The parameter as an argument of the `'static` form of the type:
/// `'static` for a lifetime, its own `'static` form for a type, itself for
/// a constant.
pub open spec fn erased_arg(p: GenericParam) -> Seq<char> {
    match p {
        GenericParam::Lifetime { name } => "'static"@,
        GenericParam::Type { name, bounds } => name@ + "::StaticType"@,
        GenericParam::Const { name, ty } => name@,
    }
}

/// What the impl asks of the `'static` form of the parameter: of a type
/// parameter, that it is sized and meets the bounds of the parameter; of
/// another parameter, nothing.
pub open spec fn demanded(p: GenericParam) -> Seq<char> {
    match p {
        GenericParam::Type { name, bounds } => if bounds@.len() == 0 {
            name@ + "::StaticType: Sized, "@
        } else {
            name@ + "::StaticType: "@ + bounds@ + " + Sized, "@
        },
        _ => Seq::empty(),
    }
}

/// The first `n` parameters as declared behind `impl`, each followed by a
/// comma.
pub open spec fn declared_list(params: Seq<GenericParam>, n: int) -> Seq<char>
    decreases n,
{
    if n <= 0 {
        Seq::empty()
    } else {
        declared_list(params, n - 1) + declared(params[n - 1]) + ", "@
    }
}

/// The first `n` parameters as arguments of the type, each followed by a
/// comma.
pub open spec fn applied_list(params: Seq<GenericParam>, n: int) -> Seq<char>
    decreases n,
{
    if n <= 0 {
        Seq::empty()
    } else {
        applied_list(params, n - 1) + applied(params[n - 1]) + ", "@
    }
}

/// The first `n` parameters as arguments of the `'static` form, each
/// followed by a comma.
pub open spec fn erased_list(params: Seq<GenericParam>, n: int) -> Seq<char>
    decreases n,
{
    if n <= 0 {
        Seq::empty()
    } else {
        erased_list(params, n - 1) + erased_arg(params[n - 1]) + ", "@
    }
}

/// What the impl asks of the `'static` forms of the first `n` parameters.
pub open spec fn demanded_list(params: Seq<GenericParam>, n: int) -> Seq<char>
    decreases n,
{
    if n <= 0 {
        Seq::empty()
    } else {
        demanded_list(params, n - 1) + demanded(params[n - 1])
    }
}

/// The parameter as the impl of `Identified` declares it, with its comma: a
/// lifetime not at all, a type with the demand that it be `Identified`.
pub open spec fn declared_fixed(p: GenericParam) -> Seq<char> {
    match p {
        GenericParam::Lifetime { name } => Seq::empty(),
        GenericParam::Type { name, bounds } => if bounds@.len() == 0 {
            name@ + ": gazebo::any::Identified, "@
        } else {
            name@ + ": "@ + bounds@ + " + gazebo::any::Identified, "@
        },
        GenericParam::Const { name, ty } => "const "@ + name@ + ": "@ + ty@ + ", "@,
    }
}

/// The parameter as an argument of the type that the impl of `Identified`
/// is for: `'static` for a lifetime, itself otherwise.
pub open spec fn fixed_arg(p: GenericParam) -> Seq<char> {
    match p {
        GenericParam::Lifetime { name } => "'static"@,
        GenericParam::Type { name, bounds } => name@,
        GenericParam::Const { name, ty } => name@,
    }
}

/// The first `n` parameters as the impl of `Identified` declares them.
pub open spec fn declared_fixed_list(params: Seq<GenericParam>, n: int) -> Seq<char>
    decreases n,
{
    if n <= 0 {
        Seq::empty()
    } else {
        declared_fixed_list(params, n - 1) + declared_fixed(params[n - 1])
    }
}

/// The first `n` parameters as arguments of the type that the impl of
/// `Identified` is for, each followed by a comma.
pub open spec fn fixed_list(params: Seq<GenericParam>, n: int) -> Seq<char>
    decreases n,
{
    if n <= 0 {
        Seq::empty()
    } else {
        fixed_list(params, n - 1) + fixed_arg(params[n - 1]) + ", "@
    }
}

/// The impl of `Identified` for the type with `'static` for every lifetime
/// parameter.
pub open spec fn identified_impl(d: Declaration) -> Seq<char> {
    let n = d.params@.len() as int;
    "impl <"@ + declared_fixed_list(d.params@, n) + "> gazebo::any::Identified for "@ + d.ident@
        + " <"@ + fixed_list(d.params@, n) + "> { }"@
}

/// The impl of `ProvidesStaticType` for the declared type.
pub open spec fn static_type_impl(d: Declaration) -> Seq<char> {
    let n = d.params@.len() as int;
    "impl <"@ + declared_list(d.params@, n) + "> gazebo::any::ProvidesStaticType for "@ + d.ident@
        + " <"@ + applied_list(d.params@, n) + "> where "@ + demanded_list(d.params@, n)
        + "{ type StaticType = "@ + d.ident@ + " <"@ + erased_list(d.params@, n) + ">; }"@
}

/// What the derive answers for a declaration: the two impls for a struct
/// or an enum, an error for a union.
pub open spec fn derived(d: Declaration) -> Result<Seq<char>, DeriveError> {
    if d.kind == Kind::Union {
        Err(DeriveError::Union)
    } else {
        Ok(static_type_impl(d) + " "@ + identified_impl(d))
    }
}

fn push_declared(out: &mut String, p: &GenericParam)
    ensures
        final(out)@ == old(out)@ + declared(*p),
{
    match p {
        GenericParam::Lifetime { name } => {
            out.append(name.as_str());
        },
        GenericParam::Type { name, bounds } => {
            out.append(name.as_str());
            if bounds.as_str().is_empty() {
                out.append(": gazebo::any::ProvidesStaticType");
            } else {
                out.append(": ");
                out.append(bounds.as_str());
                out.append(" + gazebo::any::ProvidesStaticType");
            }
        },
        GenericParam::Const { name, ty } => {
            out.append("const ");
            out.append(name.as_str());
            out.append(": ");
            out.append(ty.as_str());
        },
    }
}

fn push_applied(out: &mut String, p: &GenericParam)
    ensures
        final(out)@ == old(out)@ + applied(*p),
{
    match p {
        GenericParam::Lifetime { name } => {
            out.append(name.as_str());
        },
        GenericParam::Type { name, bounds } => {
            out.append(name.as_str());
        },
        GenericParam::Const { name, ty } => {
            out.append(name.as_str());
        },
    }
}

fn push_erased_arg(out: &mut String, p: &GenericParam)
    ensures
        final(out)@ == old(out)@ + erased_arg(*p),
{
    match p {
        GenericParam::Lifetime { name } => {
            out.append("'static");
        },
        GenericParam::Type { name, bounds } => {
            out.append(name.as_str());
            out.append("::StaticType");
        },
        GenericParam::Const { name, ty } => {
            out.append(name.as_str());
        },
    }
}

fn push_demanded(out: &mut String, p: &GenericParam)
    ensures
        final(out)@ == old(out)@ + demanded(*p),
{
    match p {
        GenericParam::Type { name, bounds } => {
            out.append(name.as_str());
            if bounds.as_str().is_empty() {
                out.append("::StaticType: Sized, ");
            } else {
                out.append("::StaticType: ");
                out.append(bounds.as_str());
                out.append(" + Sized, ");
            }
        },
        _ => {
        },
    }
}

fn push_declared_fixed(out: &mut String, p: &GenericParam)
    ensures
        final(out)@ == old(out)@ + declared_fixed(*p),
{
    match p {
        GenericParam::Lifetime { name } => {},
        GenericParam::Type { name, bounds } => {
            out.append(name.as_str());
            if bounds.as_str().is_empty() {
                out.append(": gazebo::any::Identified, ");
            } else {
                out.append(": ");
                out.append(bounds.as_str());
                out.append(" + gazebo::any::Identified, ");
            }
        },
        GenericParam::Const { name, ty } => {
            out.append("const ");
            out.append(name.as_str());
            out.append(": ");
            out.append(ty.as_str());
            out.append(", ");
        },
    }
}

fn push_fixed_arg(out: &mut String, p: &GenericParam)
    ensures
        final(out)@ == old(out)@ + fixed_arg(*p),
{
    match p {
        GenericParam::Lifetime { name } => {
            out.append("'static");
        },
        GenericParam::Type { name, bounds } => {
            out.append(name.as_str());
        },
        GenericParam::Const { name, ty } => {
            out.append(name.as_str());
        },
    }
}

fn push_declared_fixed_list(out: &mut String, params: &Vec<GenericParam>)
    ensures
        final(out)@ == old(out)@ + declared_fixed_list(params@, params@.len() as int),
{
    let ghost start = out@;
    let mut i: usize = 0;
    while i < params.len()
        invariant
            i <= params@.len(),
            out@ == start + declared_fixed_list(params@, i as int),
        decreases params@.len() - i,
    {
        push_declared_fixed(out, &params[i]);
        i += 1;
    }
}

fn push_fixed_list(out: &mut String, params: &Vec<GenericParam>)
    ensures
        final(out)@ == old(out)@ + fixed_list(params@, params@.len() as int),
{
    let ghost start = out@;
    let mut i: usize = 0;
    while i < params.len()
        invariant
            i <= params@.len(),
            out@ == start + fixed_list(params@, i as int),
        decreases params@.len() - i,
    {
        push_fixed_arg(out, &params[i]);
        out.append(", ");
        i += 1;
    }
}

fn push_declared_list(out: &mut String, params: &Vec<GenericParam>)
    ensures
        final(out)@ == old(out)@ + declared_list(params@, params@.len() as int),
{
    let ghost start = out@;
    let mut i: usize = 0;
    while i < params.len()
        invariant
            i <= params@.len(),
            out@ == start + declared_list(params@, i as int),
        decreases params@.len() - i,
    {
        push_declared(out, &params[i]);
        out.append(", ");
        i += 1;
    }
}

fn push_applied_list(out: &mut String, params: &Vec<GenericParam>)
    ensures
        final(out)@ == old(out)@ + applied_list(params@, params@.len() as int),
{
    let ghost start = out@;
    let mut i: usize = 0;
    while i < params.len()
        invariant
            i <= params@.len(),
            out@ == start + applied_list(params@, i as int),
        decreases params@.len() - i,
    {
        push_applied(out, &params[i]);
        out.append(", ");
        i += 1;
    }
}

fn push_erased_list(out: &mut String, params: &Vec<GenericParam>)
    ensures
        final(out)@ == old(out)@ + erased_list(params@, params@.len() as int),
{
    let ghost start = out@;
    let mut i: usize = 0;
    while i < params.len()
        invariant
            i <= params@.len(),
            out@ == start + erased_list(params@, i as int),
        decreases params@.len() - i,
    {
        push_erased_arg(out, &params[i]);
        out.append(", ");
        i += 1;
    }
}

fn push_demanded_list(out: &mut String, params: &Vec<GenericParam>)
    ensures
        final(out)@ == old(out)@ + demanded_list(params@, params@.len() as int),
{
    let ghost start = out@;
    let mut i: usize = 0;
    while i < params.len()
        invariant
            i <= params@.len(),
            out@ == start + demanded_list(params@, i as int),
        decreases params@.len() - i,
    {
        push_demanded(out, &params[i]);
        i += 1;
    }
}

/// Writes the impl of `gazebo::any::ProvidesStaticType` for a struct or an
/// enum: its `StaticType` is the type itself with `'static` for every
/// lifetime parameter and, for every type parameter, the `StaticType` of
/// that parameter. Behind it stands the impl of `gazebo::any::Identified`
/// for the type with `'static` for every lifetime parameter. A union is
/// refused.
pub fn derive_any_lifetime(input: &Declaration) -> (r: Result<String, DeriveError>)
    ensures
        match r {
            Ok(out) => derived(*input) == Ok::<Seq<char>, DeriveError>(out@),
            Err(e) => derived(*input) == Err::<Seq<char>, DeriveError>(e),
        },
{
    match input.kind {
        Kind::Union => {
            return Err(DeriveError::Union);
        },
        _ => {},
    }
    let mut out = String::new();
    out.append("impl <");
    push_declared_list(&mut out, &input.params);
    out.append("> gazebo::any::ProvidesStaticType for ");
    out.append(input.ident.as_str());
    out.append(" <");
    push_applied_list(&mut out, &input.params);
    out.append("> where ");
    push_demanded_list(&mut out, &input.params);
    out.append("{ type StaticType = ");
    out.append(input.ident.as_str());
    out.append(" <");
    push_erased_list(&mut out, &input.params);
    out.append(">; }");
    out.append(" ");
    let ghost spaced = out@;
    out.append("impl <");
    push_declared_fixed_list(&mut out, &input.params);
    out.append("> gazebo::any::Identified for ");
    out.append(input.ident.as_str());
    out.append(" <");
    push_fixed_list(&mut out, &input.params);
    out.append("> { }");
    assert(out@ == spaced + identified_impl(*input));
    Ok(out)
}

} // verus!
