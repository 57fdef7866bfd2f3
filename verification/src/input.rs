use vstd::prelude::*;

verus! {

/// One argument inside a list-style attribute, as far as expansion
/// distinguishes them: a bare identifier (a "word"), or any other shape.
pub enum NestedArg {
    Word(String),
    Other,
}

/// One attribute attached to a declaration. Expansion only inspects
/// list-style attributes (`#[name(arg, ...)]`); every other attribute
/// shape is carried as `Other`.
pub enum Attr {
    List { name: String, args: Vec<NestedArg> },
    Other,
}

/// The type of one field, as far as expansion distinguishes types: a tuple
/// type with its arity, or any other type. Both carry the source text of
/// the type, which is spliced into the generated implementation.
#[derive(Debug, PartialEq, Eq)]
pub enum Ty {
    Tuple { arity: usize, text: String },
    Other { text: String },
}

/// The three generics fragments of a declaration, already split for an
/// `impl` block: the parameters after the `impl` keyword, the arguments
/// after the type name, and the `where` clause (each possibly empty).
pub struct Generics {
    pub impl_generics: String,
    pub ty_generics: String,
    pub where_clause: String,
}

/// The fields of a struct declaration: record-style, tuple-style, or none.
pub enum Fields {
    Named(Vec<Ty>),
    Unnamed(Vec<Ty>),
    Unit,
}

/// The kind of a declaration.
pub enum Data {
    Struct(Fields),
    Enum,
    Union,
}

/// A type declaration as handed to expansion: its name, its generics, its
/// attributes, and its kind together with the types of its fields.
pub struct DeriveInput {
    pub ident: String,
    pub generics: Generics,
    pub attrs: Vec<Attr>,
    pub data: Data,
}

/// Why an expansion was rejected.
#[derive(Clone, Copy, Debug, PartialEq, Eq, Structural)]
pub enum Error {
    MissingRepr,
    UnitStruct,
    UnsupportedEnum,
    UnsupportedUnion,
    NotSingleField,
}

/// The source text of a field's type.
pub open spec fn ty_text(t: Ty) -> Seq<char> {
    match t {
        Ty::Tuple { text, .. } => text@,
        Ty::Other { text } => text@,
    }
}

impl Ty {
    /// The source text of this type.
    pub fn text(&self) -> (r: &str)
        ensures
            r@ == ty_text(*self),
    {
        match self {
            Ty::Tuple { text, .. } => text.as_str(),
            Ty::Other { text } => text.as_str(),
        }
    }
}

impl Clone for Ty {
    fn clone(&self) -> (r: Self)
        ensures
            r == *self,
    {
        match self {
            Ty::Tuple { arity, text } => Ty::Tuple { arity: *arity, text: text.clone() },
            Ty::Other { text } => Ty::Other { text: text.clone() },
        }
    }
}

impl Error {
    /// The diagnostic message for this rejection.
    pub open spec fn spec_message(self) -> Seq<char> {
        match self {
            Error::MissingRepr => "RefCast trait requires #[repr(C)] or #[repr(transparent)]"@,
            Error::UnitStruct => "RefCast does not support unit structs"@,
            Error::UnsupportedEnum => "RefCast does not support enums"@,
            Error::UnsupportedUnion => "RefCast does not support unions"@,
            Error::NotSingleField => "RefCast requires a struct with a single field"@,
        }
    }

    /// The diagnostic message for this rejection.
    pub fn message(&self) -> (r: &'static str)
        ensures
            r@ == self.spec_message(),
    {
        match self {
            Error::MissingRepr => "RefCast trait requires #[repr(C)] or #[repr(transparent)]",
            Error::UnitStruct => "RefCast does not support unit structs",
            Error::UnsupportedEnum => "RefCast does not support enums",
            Error::UnsupportedUnion => "RefCast does not support unions",
            Error::NotSingleField => "RefCast requires a struct with a single field",
        }
    }
}

} // verus!
