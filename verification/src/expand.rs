use crate::input::{Attr, Data, DeriveInput, Error, Fields, NestedArg, Ty};
use crate::input::ty_text;
use vstd::prelude::*;
use vstd::string::StringExecFns;

verus! {

/// Whether an attribute is a layout-guaranteeing representation attribute:
/// a list-style attribute named `repr` whose single argument is the bare
/// word `C` or `transparent`.
pub open spec fn is_layout_repr(a: Attr) -> bool {
    &&& a matches Attr::List { name, args }
    &&& name@ == "repr"@
    &&& args@.len() == 1
    &&& args@[0] matches NestedArg::Word(w)
    &&& (w@ == "C"@ || w@ == "transparent"@)
}

/// Whether some attribute in the list guarantees a stable layout.
pub open spec fn spec_has_layout_repr(attrs: Seq<Attr>) -> bool {
    exists|i: int| 0 <= i < attrs.len() && is_layout_repr(attrs[i])
}

/// String equality on slices, decided by content.
fn str_eq(a: &str, b: &str) -> (r: bool)
    ensures
        r == (a@ == b@),
{
    let sa = String::from_str(a);
    let sb = String::from_str(b);
    sa == sb
}

/// Whether one attribute is a layout-guaranteeing representation attribute.
fn attr_is_layout_repr(a: &Attr) -> (r: bool)
    ensures
        r == is_layout_repr(*a),
{
    match a {
        Attr::List { name, args } => {
            if !str_eq(name.as_str(), "repr") {
                return false;
            }
            if args.len() != 1 {
                return false;
            }
            match &args[0] {
                NestedArg::Word(w) => {
                    str_eq(w.as_str(), "C") || str_eq(w.as_str(), "transparent")
                },
                NestedArg::Other => false,
            }
        },
        Attr::Other => false,
    }
}

/// Whether the declaration carries `#[repr(C)]` or `#[repr(transparent)]`.
pub fn has_repr_c(input: &DeriveInput) -> (r: bool)
    ensures
        r == spec_has_layout_repr(input.attrs@),
{
    let mut i: usize = 0;
    while i < input.attrs.len()
        invariant
            i <= input.attrs@.len(),
            forall|j: int| 0 <= j < i ==> !is_layout_repr(input.attrs@[j]),
        decreases input.attrs@.len() - i,
    {
        if attr_is_layout_repr(&input.attrs[i]) {
            return true;
        }
        i += 1;
    }
    false
}

/// Whether a field's type is trivial: the empty tuple (unit) type.
pub open spec fn spec_is_trivial(t: Ty) -> bool {
    t matches Ty::Tuple { arity, .. } && arity == 0
}

/// Whether a field's type is trivial: the empty tuple (unit) type.
pub fn is_trivial_type(ty: &Ty) -> (r: bool)
    ensures
        r == spec_is_trivial(*ty),
{
    match ty {
        Ty::Tuple { arity, .. } => *arity == 0,
        Ty::Other { .. } => false,
    }
}

/// How many of the fields' types are non-trivial.
pub open spec fn non_trivial_count(s: Seq<Ty>) -> nat
    decreases s.len(),
{
    if s.len() == 0 {
        0
    } else {
        non_trivial_count(s.drop_last()) + if spec_is_trivial(s.last()) {
            0nat
        } else {
            1nat
        }
    }
}

fn count_non_trivial(fields: &Vec<Ty>) -> (n: usize)
    ensures
        n == non_trivial_count(fields@),
{
    let mut n: usize = 0;
    let mut i: usize = 0;
    while i < fields.len()
        invariant
            i <= fields@.len(),
            n <= i,
            n == non_trivial_count(fields@.subrange(0, i as int)),
        decreases fields@.len() - i,
    {
        proof {
            assert(fields@.subrange(0, i + 1).drop_last() =~= fields@.subrange(0, i as int));
            assert(fields@.subrange(0, i + 1).last() == fields@[i as int]);
        }
        if !is_trivial_type(&fields[i]) {
            n += 1;
        }
        i += 1;
    }
    proof {
        assert(fields@.subrange(0, fields@.len() as int) =~= fields@);
    }
    n
}

/// The fields' types of a struct declaration, or nothing for a unit
/// struct, an enum, or a union.
pub open spec fn struct_fields(data: Data) -> Option<Seq<Ty>> {
    match data {
        Data::Struct(Fields::Named(fs)) => Some(fs@),
        Data::Struct(Fields::Unnamed(fs)) => Some(fs@),
        _ => None,
    }
}

/// The type selected from a field list: the first field's type when
/// exactly one field is non-trivial, and a rejection otherwise.
pub open spec fn spec_select_from(fs: Seq<Ty>) -> Result<Ty, Error> {
    if non_trivial_count(fs) == 1 {
        Ok(fs[0])
    } else {
        Err(Error::NotSingleField)
    }
}

/// The casting source type of a declaration, or why none exists.
pub open spec fn spec_select_field(data: Data) -> Result<Ty, Error> {
    match data {
        Data::Struct(Fields::Named(fs)) => spec_select_from(fs@),
        Data::Struct(Fields::Unnamed(fs)) => spec_select_from(fs@),
        Data::Struct(Fields::Unit) => Err(Error::UnitStruct),
        Data::Enum => Err(Error::UnsupportedEnum),
        Data::Union => Err(Error::UnsupportedUnion),
    }
}

/// Select the casting source type of the declaration: the type of its
/// first field, which must be the only non-trivial one.
///
/// Note: when several fields are present and the single non-trivial one is
/// not declared first, the first field's (trivial) type is still the one
/// returned. Callers that care must order the meaningful field first.
pub fn only_field_ty(input: &DeriveInput) -> (r: Result<Ty, Error>)
    ensures
        r == spec_select_field(input.data),
{
    let fields: &Vec<Ty> = match &input.data {
        Data::Struct(data) => match data {
            Fields::Named(fields) => fields,
            Fields::Unnamed(fields) => fields,
            Fields::Unit => {
                return Err(Error::UnitStruct);
            },
        },
        Data::Enum => {
            return Err(Error::UnsupportedEnum);
        },
        Data::Union => {
            return Err(Error::UnsupportedUnion);
        },
    };
    let n = count_non_trivial(fields);
    if n != 1 {
        return Err(Error::NotSingleField);
    }
    proof {
        if fields@.len() == 0 {
            assert(non_trivial_count(fields@) == 0);
        }
    }
    Ok(fields[0].clone())
}

/// The fixed tail of the emitted implementation: the two casting methods,
/// which reinterpret the reference through a raw pointer.
pub open spec fn cast_methods_text() -> Seq<char> {
    "; #[inline] fn ref_cast(_from: &Self::From) -> &Self { unsafe { &*(_from as *const Self::From as *const Self) } } #[inline] fn ref_cast_mut(_from: &mut Self::From) -> &mut Self { unsafe { &mut *(_from as *mut Self::From as *mut Self) } } }"@
}

/// The source text of the emitted trait implementation, assembled from the
/// declaration's name, its generics fragments, and the selected source
/// type's text.
pub open spec fn impl_text(
    name: Seq<char>,
    impl_generics: Seq<char>,
    ty_generics: Seq<char>,
    where_clause: Seq<char>,
    from: Seq<char>,
) -> Seq<char> {
    "impl "@ + impl_generics + " ::ref_cast::RefCast for "@ + name + ty_generics + " "@
        + where_clause + " { type From = "@ + from + cast_methods_text()
}

fn render_impl(input: &DeriveInput, from: &Ty) -> (r: String)
    ensures
        r@ == impl_text(
            input.ident@,
            input.generics.impl_generics@,
            input.generics.ty_generics@,
            input.generics.where_clause@,
            ty_text(*from),
        ),
{
    let mut out = String::new();
    out.append("impl ");
    out.append(input.generics.impl_generics.as_str());
    out.append(" ::ref_cast::RefCast for ");
    out.append(input.ident.as_str());
    out.append(input.generics.ty_generics.as_str());
    out.append(" ");
    out.append(input.generics.where_clause.as_str());
    out.append(" { type From = ");
    out.append(from.text());
    out.append(
        "; #[inline] fn ref_cast(_from: &Self::From) -> &Self { unsafe { &*(_from as *const Self::From as *const Self) } } #[inline] fn ref_cast_mut(_from: &mut Self::From) -> &mut Self { unsafe { &mut *(_from as *mut Self::From as *mut Self) } } }",
    );
    proof {
        assert(out@ =~= impl_text(
            input.ident@,
            input.generics.impl_generics@,
            input.generics.ty_generics@,
            input.generics.where_clause@,
            ty_text(*from),
        ));
    }
    out
}

/// What expansion yields for a declaration: the implementation's source
/// text, or why the declaration was rejected. The representation attribute
/// is checked before the fields are inspected.
pub open spec fn spec_expand(input: DeriveInput) -> Result<Seq<char>, Error> {
    if !spec_has_layout_repr(input.attrs@) {
        Err(Error::MissingRepr)
    } else {
        match spec_select_field(input.data) {
            Ok(ty) => Ok(
                impl_text(
                    input.ident@,
                    input.generics.impl_generics@,
                    input.generics.ty_generics@,
                    input.generics.where_clause@,
                    ty_text(ty),
                ),
            ),
            Err(e) => Err(e),
        }
    }
}

/// An expansion result with the emitted text seen as a character sequence.
pub open spec fn expand_result_view(r: Result<String, Error>) -> Result<Seq<char>, Error> {
    match r {
        Ok(s) => Ok(s@),
        Err(e) => Err(e),
    }
}

/// Expand one declaration into the trait implementation's source text, or
/// reject it.
pub fn expand(input: DeriveInput) -> (r: Result<String, Error>)
    ensures
        expand_result_view(r) == spec_expand(input),
{
    if !has_repr_c(&input) {
        return Err(Error::MissingRepr);
    }
    let from = match only_field_ty(&input) {
        Ok(ty) => ty,
        Err(e) => {
            return Err(e);
        },
    };
    Ok(render_impl(&input, &from))
}

/// The source text of a compile-time error carrying the given message.
pub open spec fn compile_error_text(msg: Seq<char>) -> Seq<char> {
    "compile_error! { \""@ + msg + "\" }"@
}

/// What the whole derivation emits: the implementation's source text, or a
/// compile-time error fragment carrying the rejection's message.
pub open spec fn spec_derive_output(input: DeriveInput) -> Seq<char> {
    match spec_expand(input) {
        Ok(text) => text,
        Err(e) => compile_error_text(e.spec_message()),
    }
}

/// Derive the casting trait for one declaration. Success emits the
/// implementation's source text; every rejection emits a compile-time
/// error fragment in its place, so the failure surfaces when the emitted
/// text is compiled.
pub fn derive_ref_cast(input: DeriveInput) -> (r: String)
    ensures
        r@ == spec_derive_output(input),
{
    match expand(input) {
        Ok(text) => text,
        Err(e) => {
            let mut out = String::new();
            out.append("compile_error! { \"");
            out.append(e.message());
            out.append("\" }");
            proof {
                assert(out@ =~= compile_error_text(e.spec_message()));
            }
            out
        },
    }
}

} // verus!
