//! Generation-time diagnostics.
//!
//! Every failure the generator can detect is one variant here; each carries
//! a distinct, human-readable message. A diagnostic is terminal: when one is
//! produced, nothing is emitted for that invocation.

use vstd::prelude::*;

verus! {

/// The reasons for which a generation invocation aborts.
#[derive(Clone, Copy, Debug, PartialEq, Eq, Structural)]
pub enum Diagnostic {
    /// An attribute option other than `name` was supplied.
    UnsupportedProperty,
    /// The input type's name does not end in `Kind` and no override was given.
    MissingKindSuffix,
    /// The field-driven generator was applied to something other than a struct.
    NotAStruct,
    /// The struct does not have exactly one field.
    WrongFieldCount,
    /// The single field's type is not the `Box` container.
    NotBoxField,
    /// The `Box` path carries no angle-bracketed argument list.
    MissingAngleArgs,
    /// The argument list is not exactly one type argument.
    BadGenericArg,
    /// The contained type has no leading identifier to name the payload by.
    UnresolvedInner,
}

impl Diagnostic {
    /// The message text of this diagnostic.
    pub open spec fn spec_message(self) -> Seq<char> {
        match self {
            Diagnostic::UnsupportedProperty => "unsupported property"@,
            Diagnostic::MissingKindSuffix => (
                "type name must end with `Kind`; rename the type or supply an explicit wrapper name"@
            ),
            Diagnostic::NotAStruct => "Boxed can only be derived on structs with a single field"@,
            Diagnostic::WrongFieldCount => "Struct must have exactly one field of type `Box<T>`"@,
            Diagnostic::NotBoxField => "Field must be of type `Box<T>`"@,
            Diagnostic::MissingAngleArgs => "Expected angle-bracketed arguments in `Box<T>`"@,
            Diagnostic::BadGenericArg => "Expected a single generic argument in `Box<T>`"@,
            Diagnostic::UnresolvedInner => "Expected an identifier in `Box<T>`"@,
        }
    }

    /// The human-readable text reported for this diagnostic.
    pub fn message(&self) -> (r: &'static str)
        ensures
            r@ == self.spec_message(),
    {
        match self {
            Diagnostic::UnsupportedProperty => "unsupported property",
            Diagnostic::MissingKindSuffix => (
                "type name must end with `Kind`; rename the type or supply an explicit wrapper name"
            ),
            Diagnostic::NotAStruct => "Boxed can only be derived on structs with a single field",
            Diagnostic::WrongFieldCount => "Struct must have exactly one field of type `Box<T>`",
            Diagnostic::NotBoxField => "Field must be of type `Box<T>`",
            Diagnostic::MissingAngleArgs => "Expected angle-bracketed arguments in `Box<T>`",
            Diagnostic::BadGenericArg => "Expected a single generic argument in `Box<T>`",
            Diagnostic::UnresolvedInner => "Expected an identifier in `Box<T>`",
        }
    }
}

/// Distinct diagnostics carry distinct message texts: a reported failure can
/// always be told apart from every other kind of failure.
pub proof fn lemma_messages_distinct(a: Diagnostic, b: Diagnostic)
    requires
        a != b,
    ensures
        a.spec_message() != b.spec_message(),
{
    reveal_strlit("unsupported property");
    reveal_strlit(
        "type name must end with `Kind`; rename the type or supply an explicit wrapper name",
    );
    reveal_strlit("Boxed can only be derived on structs with a single field");
    reveal_strlit("Struct must have exactly one field of type `Box<T>`");
    reveal_strlit("Field must be of type `Box<T>`");
    reveal_strlit("Expected angle-bracketed arguments in `Box<T>`");
    reveal_strlit("Expected a single generic argument in `Box<T>`");
    reveal_strlit("Expected an identifier in `Box<T>`");
    // The two texts of equal length differ at a character; the rest differ
    // already in length.
    assert(Diagnostic::UnsupportedProperty.spec_message().len() == 20);
    assert(Diagnostic::MissingKindSuffix.spec_message().len() == 82);
    assert(Diagnostic::NotAStruct.spec_message().len() == 56);
    assert(Diagnostic::WrongFieldCount.spec_message().len() == 51);
    assert(Diagnostic::NotBoxField.spec_message().len() == 30);
    assert(Diagnostic::MissingAngleArgs.spec_message().len() == 46);
    assert(Diagnostic::BadGenericArg.spec_message().len() == 46);
    assert(Diagnostic::UnresolvedInner.spec_message().len() == 34);
    assert(Diagnostic::MissingAngleArgs.spec_message()[10]
        != Diagnostic::BadGenericArg.spec_message()[10]);
}

} // verus!
