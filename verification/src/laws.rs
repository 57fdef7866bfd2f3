//! General properties of expansion, stated over the same specification
//! functions that the executable functions' contracts use.

use crate::expand::{
    impl_text, non_trivial_count, spec_expand, spec_has_layout_repr, spec_is_trivial,
    struct_fields,
};
use crate::input::{Data, DeriveInput, Error, Fields, Ty, ty_text};
use vstd::prelude::*;

verus! {

proof fn lemma_count_zero_all_trivial(s: Seq<Ty>)
    requires
        non_trivial_count(s) == 0,
    ensures
        forall|j: int| 0 <= j < s.len() ==> spec_is_trivial(s[j]),
    decreases s.len(),
{
    if s.len() > 0 {
        let d = s.drop_last();
        assert(non_trivial_count(d) == 0);
        lemma_count_zero_all_trivial(d);
        assert forall|j: int| 0 <= j < s.len() implies spec_is_trivial(s[j]) by {
            if j < s.len() - 1 {
                assert(d[j] == s[j]);
            } else {
                assert(s[j] == s.last());
            }
        }
    }
}

proof fn lemma_unique_non_trivial_first(s: Seq<Ty>)
    requires
        non_trivial_count(s) == 1,
        !spec_is_trivial(s[0]),
    ensures
        forall|j: int| 1 <= j < s.len() ==> spec_is_trivial(s[j]),
    decreases s.len(),
{
    if s.len() == 0 {
        assert(false);
    } else if s.len() > 1 {
        let d = s.drop_last();
        assert(d[0] == s[0]);
        if spec_is_trivial(s.last()) {
            assert(non_trivial_count(d) == 1);
            lemma_unique_non_trivial_first(d);
            assert forall|j: int| 1 <= j < s.len() implies spec_is_trivial(s[j]) by {
                if j < s.len() - 1 {
                    assert(d[j] == s[j]);
                } else {
                    assert(s[j] == s.last());
                }
            }
        } else {
            assert(non_trivial_count(d) == 0);
            lemma_count_zero_all_trivial(d);
            assert(false);
        }
    }
}

/// A struct with a stable layout and exactly one non-trivial field expands
/// successfully, and the emitted implementation splices in the first
/// field's type as the casting source type.
pub proof fn lemma_single_field_expands(input: DeriveInput, fs: Seq<Ty>)
    requires
        spec_has_layout_repr(input.attrs@),
        struct_fields(input.data) == Some(fs),
        non_trivial_count(fs) == 1,
    ensures
        spec_expand(input) == Ok::<Seq<char>, Error>(
            impl_text(
                input.ident@,
                input.generics.impl_generics@,
                input.generics.ty_generics@,
                input.generics.where_clause@,
                ty_text(fs[0]),
            ),
        ),
{
}

/// A declaration without a layout-guaranteeing representation attribute is
/// rejected with the representation-requirement message, whatever its kind
/// and fields.
pub proof fn lemma_missing_repr_rejected(input: DeriveInput)
    requires
        !spec_has_layout_repr(input.attrs@),
    ensures
        spec_expand(input) == Err::<Seq<char>, Error>(Error::MissingRepr),
{
}

/// A unit struct with a stable layout is rejected with the unit-struct
/// message.
pub proof fn lemma_unit_struct_rejected(input: DeriveInput)
    requires
        spec_has_layout_repr(input.attrs@),
        input.data == Data::Struct(Fields::Unit),
    ensures
        spec_expand(input) == Err::<Seq<char>, Error>(Error::UnitStruct),
{
}

/// An enum never expands; when it carries a stable layout attribute the
/// rejection is the enum message (without one, the representation
/// requirement is reported first).
pub proof fn lemma_enum_rejected(input: DeriveInput)
    requires
        input.data is Enum,
    ensures
        spec_expand(input) is Err,
        spec_has_layout_repr(input.attrs@) ==> spec_expand(input) == Err::<Seq<char>, Error>(
            Error::UnsupportedEnum,
        ),
{
}

/// A union never expands; when it carries a stable layout attribute the
/// rejection is the union message (without one, the representation
/// requirement is reported first).
pub proof fn lemma_union_rejected(input: DeriveInput)
    requires
        input.data is Union,
    ensures
        spec_expand(input) is Err,
        spec_has_layout_repr(input.attrs@) ==> spec_expand(input) == Err::<Seq<char>, Error>(
            Error::UnsupportedUnion,
        ),
{
}

/// A struct with a stable layout whose non-trivial field count is not
/// exactly one (none, or two or more) is rejected with the single-field
/// message.
pub proof fn lemma_field_count_rejected(input: DeriveInput, fs: Seq<Ty>)
    requires
        spec_has_layout_repr(input.attrs@),
        struct_fields(input.data) == Some(fs),
        non_trivial_count(fs) != 1,
    ensures
        spec_expand(input) == Err::<Seq<char>, Error>(Error::NotSingleField),
{
}

/// When the single non-trivial field of an expandable struct is declared
/// first, the selected casting source type is exactly that non-trivial
/// field's type: every other field is trivial. (When it is not declared
/// first, expansion still selects the first field's type; see
/// `only_field_ty`.)
pub proof fn lemma_non_trivial_first_selected(input: DeriveInput, fs: Seq<Ty>)
    requires
        spec_has_layout_repr(input.attrs@),
        struct_fields(input.data) == Some(fs),
        non_trivial_count(fs) == 1,
        !spec_is_trivial(fs[0]),
    ensures
        spec_expand(input) == Ok::<Seq<char>, Error>(
            impl_text(
                input.ident@,
                input.generics.impl_generics@,
                input.generics.ty_generics@,
                input.generics.where_clause@,
                ty_text(fs[0]),
            ),
        ),
        forall|j: int| 1 <= j < fs.len() ==> spec_is_trivial(fs[j]),
{
    lemma_unique_non_trivial_first(fs);
}

} // verus!
