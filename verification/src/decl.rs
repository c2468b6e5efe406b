//! The abstract declaration model the generator consumes.
//!
//! A declaration is a name, a visibility, and a body: a struct with fields,
//! an enum with variants, or a union. A field's type is kept only as deep as
//! the generator inspects it: a path of segment names with its generic
//! argument list, or an opaque non-path type.

use vstd::prelude::*;

verus! {

/// One generic argument of a path type.
pub enum GenArg {
    /// A type argument.
    Type(TypeExpr),
    /// A lifetime or const argument, which the generator cannot use.
    Other,
}

/// The generic argument list attached to a type path.
pub enum PathArgs {
    /// No argument list at all, as in `Box`.
    Absent,
    /// An angle-bracketed list, as in `Box<T>`.
    Angle(Vec<GenArg>),
    /// A parenthesized list, as in `Fn(T)`, which the generator cannot use.
    Parenthesized,
}

/// A type expression, as deep as the generator inspects one.
pub enum TypeExpr {
    /// A path such as `Box<T>` or `std::io::Error`: its segment names and
    /// the generic arguments of its final segment.
    Path { segments: Vec<String>, args: PathArgs },
    /// Any non-path type: a reference, tuple, slice, and so on.
    Other,
}

/// One field of a struct declaration.
pub struct Field {
    /// The field's name; `None` for a tuple struct's positional field.
    pub name: Option<String>,
    /// Whether the field is declared public.
    pub vis_public: bool,
    /// The field's type.
    pub ty: TypeExpr,
}

/// The body of a type declaration.
pub enum DeclBody {
    /// A struct and its fields.
    Struct { fields: Vec<Field> },
    /// An enum and its variant names.
    Enum { variants: Vec<String> },
    /// A union, which neither generator accepts as a field-driven input.
    Union,
}

/// A type declaration, as the generator receives it. The generator never
/// mutates a declaration: both entry points take it by shared reference.
pub struct Decl {
    /// The declared type's name.
    pub name: String,
    /// Whether the declaration is public.
    pub vis_public: bool,
    /// The declaration's body.
    pub body: DeclBody,
}

} // verus!
