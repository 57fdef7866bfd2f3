use ref_cast_derive::{has_repr_c, is_trivial_type, only_field_ty, Attr, Data, DeriveInput, Error, Fields, Generics, NestedArg, Ty};

fn input_with(attrs: Vec<Attr>, data: Data) -> DeriveInput {
    DeriveInput {
        ident: String::from("Wrapper"),
        generics: Generics {
            impl_generics: String::new(),
            ty_generics: String::new(),
            where_clause: String::new(),
        },
        attrs,
        data,
    }
}

fn list_attr(name: &str, words: Vec<&str>) -> Attr {
    Attr::List {
        name: String::from(name),
        args: words.into_iter().map(|w| NestedArg::Word(String::from(w))).collect(),
    }
}

fn single_field(data: fn(Vec<Ty>) -> Fields, ty: Ty) -> Data {
    Data::Struct(data(vec![ty]))
}

#[test]
fn repr_c_is_accepted() {
    let input = input_with(vec![list_attr("repr", vec!["C"])], Data::Struct(Fields::Unit));
    assert!(has_repr_c(&input));
}

#[test]
fn repr_transparent_is_accepted() {
    let input = input_with(vec![list_attr("repr", vec!["transparent"])], Data::Struct(Fields::Unit));
    assert!(has_repr_c(&input));
}

#[test]
fn no_attributes_is_rejected() {
    let input = input_with(vec![], Data::Struct(Fields::Unit));
    assert!(!has_repr_c(&input));
}

#[test]
fn repr_packed_is_rejected() {
    let input = input_with(vec![list_attr("repr", vec!["packed"])], Data::Struct(Fields::Unit));
    assert!(!has_repr_c(&input));
}

#[test]
fn repr_with_two_arguments_is_rejected() {
    // The check wants exactly one argument, so `#[repr(C, packed)]` does
    // not count as a layout guarantee.
    let input = input_with(vec![list_attr("repr", vec!["C", "packed"])], Data::Struct(Fields::Unit));
    assert!(!has_repr_c(&input));
}

#[test]
fn other_attribute_named_differently_is_rejected() {
    let input = input_with(vec![list_attr("derive", vec!["C"])], Data::Struct(Fields::Unit));
    assert!(!has_repr_c(&input));
}

#[test]
fn non_word_argument_is_rejected() {
    let attr = Attr::List { name: String::from("repr"), args: vec![NestedArg::Other] };
    let input = input_with(vec![attr], Data::Struct(Fields::Unit));
    assert!(!has_repr_c(&input));
}

#[test]
fn shapeless_attribute_is_rejected() {
    let input = input_with(vec![Attr::Other], Data::Struct(Fields::Unit));
    assert!(!has_repr_c(&input));
}

#[test]
fn later_attribute_is_found() {
    let input = input_with(
        vec![Attr::Other, list_attr("repr", vec!["C"])],
        Data::Struct(Fields::Unit),
    );
    assert!(has_repr_c(&input));
}

#[test]
fn empty_tuple_type_is_trivial() {
    assert!(is_trivial_type(&Ty::Tuple { arity: 0, text: String::from("()") }));
}

#[test]
fn non_empty_tuple_type_is_not_trivial() {
    assert!(!is_trivial_type(&Ty::Tuple { arity: 2, text: String::from("(u8, u8)") }));
}

#[test]
fn path_type_is_not_trivial() {
    assert!(!is_trivial_type(&Ty::Other { text: String::from("String") }));
}

#[test]
fn selects_single_named_field() {
    let input = input_with(vec![], single_field(Fields::Named, Ty::Other { text: String::from("u32") }));
    assert_eq!(only_field_ty(&input), Ok(Ty::Other { text: String::from("u32") }));
}

#[test]
fn selects_single_unnamed_field() {
    let input = input_with(vec![], single_field(Fields::Unnamed, Ty::Other { text: String::from("u32") }));
    assert_eq!(only_field_ty(&input), Ok(Ty::Other { text: String::from("u32") }));
}

#[test]
fn rejects_unit_struct() {
    let input = input_with(vec![], Data::Struct(Fields::Unit));
    assert_eq!(only_field_ty(&input), Err(Error::UnitStruct));
}

#[test]
fn rejects_enum() {
    let input = input_with(vec![], Data::Enum);
    assert_eq!(only_field_ty(&input), Err(Error::UnsupportedEnum));
}

#[test]
fn rejects_union() {
    let input = input_with(vec![], Data::Union);
    assert_eq!(only_field_ty(&input), Err(Error::UnsupportedUnion));
}

#[test]
fn rejects_two_non_trivial_fields() {
    let data = Data::Struct(Fields::Named(vec![
        Ty::Other { text: String::from("u8") },
        Ty::Other { text: String::from("u16") },
    ]));
    let input = input_with(vec![], data);
    assert_eq!(only_field_ty(&input), Err(Error::NotSingleField));
}

#[test]
fn returns_first_field_even_when_trivial() {
    // Known limitation: the single non-trivial field is found anywhere in
    // the list, but the first field's type is the one returned.
    let data = Data::Struct(Fields::Unnamed(vec![
        Ty::Tuple { arity: 0, text: String::from("()") },
        Ty::Other { text: String::from("Inner") },
    ]));
    let input = input_with(vec![], data);
    assert_eq!(only_field_ty(&input), Ok(Ty::Tuple { arity: 0, text: String::from("()") }));
}

#[test]
fn error_messages_are_fixed() {
    assert_eq!(
        Error::MissingRepr.message(),
        "RefCast trait requires #[repr(C)] or #[repr(transparent)]"
    );
    assert_eq!(Error::UnitStruct.message(), "RefCast does not support unit structs");
    assert_eq!(Error::UnsupportedEnum.message(), "RefCast does not support enums");
    assert_eq!(Error::UnsupportedUnion.message(), "RefCast does not support unions");
    assert_eq!(
        Error::NotSingleField.message(),
        "RefCast requires a struct with a single field"
    );
}
