//! The two generation entry points.
//!
//! Each driver is a straight-line composition: validate the input's shape,
//! resolve the wrapper name and accessor suffix, and hand the result to the
//! emission model. Any failure aborts the invocation with its diagnostic and
//! nothing is emitted.

use vstd::prelude::*;
use crate::decl::Decl;
use crate::diag::Diagnostic;
use crate::emit::{emit_attribute_ops, emit_field_ops, emitted_attribute_ops, emitted_field_ops,
    EmittedOp, OpView};
use crate::names::{infer_suffix, inferred_suffix, resolve_wrapper_name, str_eq,
    wrapper_name_outcome};
use crate::validate::{field_payload, field_payload_outcome};

verus! {

/// One configuration option handed to the attribute-driven generator, as a
/// key-value pair.
pub struct AttrOption {
    /// The option's name; only `name` is recognized.
    pub key: String,
    /// The option's value.
    pub value: String,
}

/// The wrapper-name override the option list yields: the first option's
/// value when every option is the recognized `name` option, nothing when the
/// list is empty, and a diagnostic when any option is unrecognized.
pub open spec fn override_outcome(opts: Seq<AttrOption>) -> Result<
    Option<Seq<char>>,
    Diagnostic,
> {
    if !(forall|i: int| 0 <= i < opts.len() ==> (#[trigger] opts[i].key)@ == "name"@) {
        Err(Diagnostic::UnsupportedProperty)
    } else if opts.len() > 0 {
        Ok(Some(opts[0].value@))
    } else {
        Ok(None)
    }
}

/// Scans the attribute's option list for a wrapper-name override, rejecting
/// any option other than `name`.
pub fn resolve_override(opts: &Vec<AttrOption>) -> (r: Result<Option<String>, Diagnostic>)
    ensures
        (match override_outcome(opts@) {
            Ok(Some(s)) => r matches Ok(o) && o matches Some(v) && v@ == s,
            Ok(None) => r matches Ok(o) && o is None,
            Err(d) => r matches Err(e) && e == d,
        }),
{
    let mut i: usize = 0;
    while i < opts.len()
        invariant
            i <= opts@.len(),
            forall|j: int| 0 <= j < i ==> (#[trigger] opts@[j].key)@ == "name"@,
        decreases opts@.len() - i,
    {
        if !str_eq(opts[i].key.as_str(), "name") {
            return Err(Diagnostic::UnsupportedProperty);
        }
        i += 1;
    }
    if opts.len() > 0 {
        Ok(Some(opts[0].value.clone()))
    } else {
        Ok(None)
    }
}

/// What the attribute-driven generator produces for a declaration and its
/// option list: the full six-operation set, or the first diagnostic found.
pub open spec fn attribute_outcome(d: Decl, opts: Seq<AttrOption>) -> Result<
    Seq<OpView>,
    Diagnostic,
> {
    match override_outcome(opts) {
        Err(e) => Err(e),
        Ok(ov) => match wrapper_name_outcome(d.name@, ov) {
            Err(e) => Err(e),
            Ok(w) => Ok(emitted_attribute_ops(w, d.name@, d.vis_public)),
        },
    }
}

/// What the field-driven generator produces for a declaration: the
/// five-operation set (the wrapper declaration pre-exists), or the first
/// diagnostic found.
pub open spec fn field_outcome(d: Decl) -> Result<Seq<OpView>, Diagnostic> {
    match field_payload_outcome(d) {
        Err(e) => Err(e),
        Ok(inner) => Ok(emitted_field_ops(d.name@, inner, inferred_suffix(inner))),
    }
}

/// The attribute-driven generator: applied to the payload type's own
/// declaration, with an optional `name` override. The input declaration is
/// not touched; the caller re-emits it verbatim beside these operations.
pub fn attribute_driven(d: &Decl, opts: &Vec<AttrOption>) -> (r: Result<
    Vec<EmittedOp>,
    Diagnostic,
>)
    ensures
        (match attribute_outcome(*d, opts@) {
            Ok(ops) => r matches Ok(v) && v.deep_view() == ops,
            Err(e) => r matches Err(x) && x == e,
        }),
{
    let override_name = match resolve_override(opts) {
        Ok(o) => o,
        Err(e) => {
            return Err(e);
        },
    };
    let wrapper = match resolve_wrapper_name(d.name.as_str(), &override_name) {
        Ok(w) => w,
        Err(e) => {
            return Err(e);
        },
    };
    Ok(emit_attribute_ops(&wrapper, &d.name, d.vis_public))
}

/// The field-driven generator: applied to an already-written wrapper struct
/// whose single field boxes the payload. The accessor names follow from the
/// payload type's own name; no override exists on this path.
pub fn field_driven(d: &Decl) -> (r: Result<Vec<EmittedOp>, Diagnostic>)
    ensures
        (match field_outcome(*d) {
            Ok(ops) => r matches Ok(v) && v.deep_view() == ops,
            Err(e) => r matches Err(x) && x == e,
        }),
{
    let inner = match field_payload(d) {
        Ok(n) => n,
        Err(e) => {
            return Err(e);
        },
    };
    let suffix = infer_suffix(inner.as_str());
    Ok(emit_field_ops(&d.name, &inner, suffix))
}

} // verus!
