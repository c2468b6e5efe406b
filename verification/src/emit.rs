//! The emission model.
//!
//! A validated invocation is reduced to a wrapper name, a payload name and an
//! accessor suffix; from those the model synthesizes a fixed, ordered set of
//! companion operations. The set is always complete: no validation failure
//! reaches this module, and no partial set is ever produced.

use vstd::prelude::*;
use crate::names::AccessorSuffix;

verus! {

/// How the error-source operation exposes a cause.
#[derive(Clone, Copy, Debug, PartialEq, Eq, Structural)]
pub enum SourceMode {
    /// The boxed payload itself is always reported as the source.
    Payload,
    /// The payload's own declared source, if any, is forwarded.
    Forwarded,
}

/// One synthesized companion operation.
#[derive(Debug, PartialEq, Eq)]
pub enum EmittedOp {
    /// `into_box` on the payload type: moves a payload onto the heap and
    /// returns the wrapper that owns it.
    BoxingConstructor { inner: String, wrapper: String },
    /// The wrapper type's own declaration: one boxed field of the payload.
    WrapperDecl { wrapper: String, inner: String, vis_public: bool },
    /// Display of the wrapper delegates entirely to the payload's display.
    DisplayDelegation { wrapper: String },
    /// The wrapper's error-source operation.
    SourceDelegation { wrapper: String, mode: SourceMode },
    /// `as_<suffix>` borrows the payload; `into_<suffix>` unboxes it.
    AccessorPair { wrapper: String, inner: String, as_name: String, into_name: String },
    /// For any `E` the payload converts from, convert `E` to the wrapper by
    /// converting to the payload and then boxing.
    ConversionBridge { wrapper: String, inner: String },
}

/// The mathematical form of an emitted operation: names as character
/// sequences.
pub enum OpView {
    BoxingConstructor { inner: Seq<char>, wrapper: Seq<char> },
    WrapperDecl { wrapper: Seq<char>, inner: Seq<char>, vis_public: bool },
    DisplayDelegation { wrapper: Seq<char> },
    SourceDelegation { wrapper: Seq<char>, mode: SourceMode },
    AccessorPair { wrapper: Seq<char>, inner: Seq<char>, as_name: Seq<char>, into_name: Seq<char> },
    ConversionBridge { wrapper: Seq<char>, inner: Seq<char> },
}

impl View for EmittedOp {
    type V = OpView;

    open spec fn view(&self) -> OpView {
        match self {
            EmittedOp::BoxingConstructor { inner, wrapper } => OpView::BoxingConstructor {
                inner: inner@,
                wrapper: wrapper@,
            },
            EmittedOp::WrapperDecl { wrapper, inner, vis_public } => OpView::WrapperDecl {
                wrapper: wrapper@,
                inner: inner@,
                vis_public: *vis_public,
            },
            EmittedOp::DisplayDelegation { wrapper } => OpView::DisplayDelegation {
                wrapper: wrapper@,
            },
            EmittedOp::SourceDelegation { wrapper, mode } => OpView::SourceDelegation {
                wrapper: wrapper@,
                mode: *mode,
            },
            EmittedOp::AccessorPair { wrapper, inner, as_name, into_name } => OpView::AccessorPair {
                wrapper: wrapper@,
                inner: inner@,
                as_name: as_name@,
                into_name: into_name@,
            },
            EmittedOp::ConversionBridge { wrapper, inner } => OpView::ConversionBridge {
                wrapper: wrapper@,
                inner: inner@,
            },
        }
    }
}

impl DeepView for EmittedOp {
    type V = OpView;

    open spec fn deep_view(&self) -> OpView {
        self.view()
    }
}

/// The set the attribute-driven path emits: all six operations, wrapper
/// declaration included, payload reported as the source, accessors fixed to
/// the `kind` vocabulary.
pub open spec fn emitted_attribute_ops(
    wrapper: Seq<char>,
    inner: Seq<char>,
    vis_public: bool,
) -> Seq<OpView> {
    seq![
        OpView::BoxingConstructor { inner, wrapper },
        OpView::WrapperDecl { wrapper, inner, vis_public },
        OpView::DisplayDelegation { wrapper },
        OpView::SourceDelegation { wrapper, mode: SourceMode::Payload },
        OpView::AccessorPair {
            wrapper,
            inner,
            as_name: AccessorSuffix::Kind.spec_as_name(),
            into_name: AccessorSuffix::Kind.spec_into_name(),
        },
        OpView::ConversionBridge { wrapper, inner },
    ]
}

/// The set the field-driven path emits: the wrapper declaration is omitted
/// (the caller already wrote it), the source operation forwards to the
/// payload's own source, and the accessor names follow the inferred suffix.
pub open spec fn emitted_field_ops(
    wrapper: Seq<char>,
    inner: Seq<char>,
    suffix: AccessorSuffix,
) -> Seq<OpView> {
    seq![
        OpView::BoxingConstructor { inner, wrapper },
        OpView::DisplayDelegation { wrapper },
        OpView::SourceDelegation { wrapper, mode: SourceMode::Forwarded },
        OpView::AccessorPair {
            wrapper,
            inner,
            as_name: suffix.spec_as_name(),
            into_name: suffix.spec_into_name(),
        },
        OpView::ConversionBridge { wrapper, inner },
    ]
}

/// Synthesizes the attribute-driven operation set.
pub fn emit_attribute_ops(wrapper: &String, inner: &String, vis_public: bool) -> (r: Vec<
    EmittedOp,
>)
    ensures
        r.deep_view() == emitted_attribute_ops(wrapper@, inner@, vis_public),
{
    let suffix = AccessorSuffix::Kind;
    let mut ops: Vec<EmittedOp> = Vec::new();
    ops.push(EmittedOp::BoxingConstructor { inner: inner.clone(), wrapper: wrapper.clone() });
    ops.push(
        EmittedOp::WrapperDecl { wrapper: wrapper.clone(), inner: inner.clone(), vis_public },
    );
    ops.push(EmittedOp::DisplayDelegation { wrapper: wrapper.clone() });
    ops.push(EmittedOp::SourceDelegation { wrapper: wrapper.clone(), mode: SourceMode::Payload });
    ops.push(
        EmittedOp::AccessorPair {
            wrapper: wrapper.clone(),
            inner: inner.clone(),
            as_name: suffix.as_name(),
            into_name: suffix.into_name(),
        },
    );
    ops.push(EmittedOp::ConversionBridge { wrapper: wrapper.clone(), inner: inner.clone() });
    proof {
        assert(ops.deep_view() =~= emitted_attribute_ops(wrapper@, inner@, vis_public));
    }
    ops
}

/// Synthesizes the field-driven operation set.
pub fn emit_field_ops(wrapper: &String, inner: &String, suffix: AccessorSuffix) -> (r: Vec<
    EmittedOp,
>)
    ensures
        r.deep_view() == emitted_field_ops(wrapper@, inner@, suffix),
{
    let mut ops: Vec<EmittedOp> = Vec::new();
    ops.push(EmittedOp::BoxingConstructor { inner: inner.clone(), wrapper: wrapper.clone() });
    ops.push(EmittedOp::DisplayDelegation { wrapper: wrapper.clone() });
    ops.push(
        EmittedOp::SourceDelegation { wrapper: wrapper.clone(), mode: SourceMode::Forwarded },
    );
    ops.push(
        EmittedOp::AccessorPair {
            wrapper: wrapper.clone(),
            inner: inner.clone(),
            as_name: suffix.as_name(),
            into_name: suffix.into_name(),
        },
    );
    ops.push(EmittedOp::ConversionBridge { wrapper: wrapper.clone(), inner: inner.clone() });
    proof {
        assert(ops.deep_view() =~= emitted_field_ops(wrapper@, inner@, suffix));
    }
    ops
}

/// Self-consistency of an artifact set: a conversion bridge only ever stands
/// beside the boxing constructor it calls, for the same wrapper and payload,
/// and an accessor pair only ever stands beside that same constructor.
pub open spec fn artifact_set_consistent(ops: Seq<OpView>) -> bool {
    &&& (forall|j: int|
        0 <= j < ops.len() ==> (#[trigger] ops[j] matches OpView::ConversionBridge {
            wrapper,
            inner,
        } ==> ops.contains(OpView::BoxingConstructor { inner, wrapper })))
    &&& (forall|j: int|
        0 <= j < ops.len() ==> (#[trigger] ops[j] matches OpView::AccessorPair {
            wrapper,
            inner,
            ..
        } ==> ops.contains(OpView::BoxingConstructor { inner, wrapper })))
}

/// Every emitted artifact set is total and self-consistent: the operations
/// that reference the boxing constructor are always accompanied by it, for
/// the same wrapper and payload names. No partial set is ever produced.
pub proof fn lemma_artifact_set_consistent(
    wrapper: Seq<char>,
    inner: Seq<char>,
    suffix: AccessorSuffix,
    vis_public: bool,
)
    ensures
        artifact_set_consistent(emitted_attribute_ops(wrapper, inner, vis_public)),
        artifact_set_consistent(emitted_field_ops(wrapper, inner, suffix)),
{
    let a = emitted_attribute_ops(wrapper, inner, vis_public);
    assert(a[0] == OpView::BoxingConstructor { inner, wrapper });
    assert(a.contains(OpView::BoxingConstructor { inner, wrapper }));
    let f = emitted_field_ops(wrapper, inner, suffix);
    assert(f[0] == OpView::BoxingConstructor { inner, wrapper });
    assert(f.contains(OpView::BoxingConstructor { inner, wrapper }));
}

/// Both paths emit a display operation for the wrapper, and it is always the
/// delegating form: the operation carries nothing but the wrapper's name, so
/// the wrapper can contribute no text of its own beyond the payload's.
pub proof fn lemma_display_delegates(
    wrapper: Seq<char>,
    inner: Seq<char>,
    suffix: AccessorSuffix,
    vis_public: bool,
)
    ensures
        emitted_attribute_ops(wrapper, inner, vis_public).contains(
            OpView::DisplayDelegation { wrapper },
        ),
        emitted_field_ops(wrapper, inner, suffix).contains(OpView::DisplayDelegation { wrapper }),
{
    let a = emitted_attribute_ops(wrapper, inner, vis_public);
    assert(a[2] == OpView::DisplayDelegation { wrapper });
    let f = emitted_field_ops(wrapper, inner, suffix);
    assert(f[1] == OpView::DisplayDelegation { wrapper });
}

} // verus!
