//! Shape validation for the field-driven path.
//!
//! The wrapper-shaped input must be a struct with exactly one field whose
//! type is the `Box` container applied to exactly one simple named type. Each
//! way the shape can fail has its own diagnostic, and validation stops at the
//! first failure.

use vstd::prelude::*;
use crate::decl::{Decl, DeclBody, Field, GenArg, PathArgs, TypeExpr};
use crate::diag::Diagnostic;

verus! {

/// The payload name that a contained type yields: the leading identifier of
/// a path type, or a diagnostic for anything else.
pub open spec fn inner_ident_outcome(ty: TypeExpr) -> Result<Seq<char>, Diagnostic> {
    match ty {
        TypeExpr::Path { segments, .. } => if segments@.len() >= 1 {
            Ok(segments@[0]@)
        } else {
            Err(Diagnostic::UnresolvedInner)
        },
        TypeExpr::Other => Err(Diagnostic::UnresolvedInner),
    }
}

/// The payload name that a field's type yields when it is `Box<T>` with a
/// simple named `T`, or the diagnostic for the first shape violation found.
pub open spec fn box_inner_outcome(ty: TypeExpr) -> Result<Seq<char>, Diagnostic> {
    match ty {
        TypeExpr::Path { segments, args } => if segments@.len() == 1 && segments@[0]@ == "Box"@ {
            match args {
                PathArgs::Angle(gargs) => if gargs@.len() == 1 {
                    match gargs@[0] {
                        GenArg::Type(inner) => inner_ident_outcome(inner),
                        GenArg::Other => Err(Diagnostic::BadGenericArg),
                    }
                } else {
                    Err(Diagnostic::BadGenericArg)
                },
                _ => Err(Diagnostic::MissingAngleArgs),
            }
        } else {
            Err(Diagnostic::NotBoxField)
        },
        TypeExpr::Other => Err(Diagnostic::NotBoxField),
    }
}

/// The payload name that a whole declaration yields on the field-driven
/// path: the declaration must be a struct with exactly one field, shaped as
/// `box_inner_outcome` demands.
pub open spec fn field_payload_outcome(d: Decl) -> Result<Seq<char>, Diagnostic> {
    match d.body {
        DeclBody::Struct { fields } => if fields@.len() == 1 {
            box_inner_outcome(fields@[0].ty)
        } else {
            Err(Diagnostic::WrongFieldCount)
        },
        _ => Err(Diagnostic::NotAStruct),
    }
}

/// Extracts the payload type's name from the contained type.
fn inner_ident(ty: &TypeExpr) -> (r: Result<String, Diagnostic>)
    ensures
        (match inner_ident_outcome(*ty) {
            Ok(s) => r matches Ok(n) && n@ == s,
            Err(d) => r matches Err(e) && e == d,
        }),
{
    match ty {
        TypeExpr::Path { segments, .. } => {
            if segments.len() >= 1 {
                Ok(segments[0].clone())
            } else {
                Err(Diagnostic::UnresolvedInner)
            }
        },
        TypeExpr::Other => Err(Diagnostic::UnresolvedInner),
    }
}

/// Validates that a field's type is `Box<T>` with a simple named `T` and
/// extracts `T`'s name.
pub fn box_inner(ty: &TypeExpr) -> (r: Result<String, Diagnostic>)
    ensures
        (match box_inner_outcome(*ty) {
            Ok(s) => r matches Ok(n) && n@ == s,
            Err(d) => r matches Err(e) && e == d,
        }),
{
    match ty {
        TypeExpr::Path { segments, args } => {
            let is_box = segments.len() == 1 && crate::names::str_eq(segments[0].as_str(), "Box");
            if is_box {
                match args {
                    PathArgs::Angle(gargs) => {
                        if gargs.len() == 1 {
                            match &gargs[0] {
                                GenArg::Type(inner) => inner_ident(inner),
                                GenArg::Other => Err(Diagnostic::BadGenericArg),
                            }
                        } else {
                            Err(Diagnostic::BadGenericArg)
                        }
                    },
                    _ => Err(Diagnostic::MissingAngleArgs),
                }
            } else {
                Err(Diagnostic::NotBoxField)
            }
        },
        TypeExpr::Other => Err(Diagnostic::NotBoxField),
    }
}

/// Validates a whole declaration for the field-driven path and extracts the
/// payload type's name.
pub fn field_payload(d: &Decl) -> (r: Result<String, Diagnostic>)
    ensures
        (match field_payload_outcome(*d) {
            Ok(s) => r matches Ok(n) && n@ == s,
            Err(e) => r matches Err(x) && x == e,
        }),
{
    match &d.body {
        DeclBody::Struct { fields } => {
            if fields.len() == 1 {
                box_inner(&fields[0].ty)
            } else {
                Err(Diagnostic::WrongFieldCount)
            }
        },
        _ => Err(Diagnostic::NotAStruct),
    }
}

} // verus!
