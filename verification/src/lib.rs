//! Code generator for reference-casting wrapper types.
//!
//! Given a description of a single-field wrapper struct, the library emits
//! the source text of a `::ref_cast::RefCast` trait implementation that
//! reinterprets a reference to the wrapped type as a reference to the
//! wrapper. Declarations that cannot support such a cast (no layout
//! guarantee, unit structs, enums, unions, more than one meaningful field)
//! are turned into a compile-time error fragment instead.

pub mod expand;
pub mod input;
pub mod laws;

pub use crate::expand::{derive_ref_cast, expand, has_repr_c, is_trivial_type, only_field_ty};
pub use crate::input::{Attr, Data, DeriveInput, Error, Fields, Generics, NestedArg, Ty};
