//! Rendering emitted operations as source text.
//!
//! Each operation renders to one declaration; an artifact set renders to the
//! concatenation of its operations' text, in emission order. The contracts
//! pin the produced text exactly, so in particular the display impl's body is
//! verbatim delegation to the payload and nothing else.

use vstd::prelude::*;
use vstd::string::*;
use crate::emit::{EmittedOp, OpView, SourceMode};

verus! {

/// The body of the rendered error-source operation: the boxed payload itself,
/// or a forward to the payload's own declared source.
pub open spec fn source_body_spec(mode: SourceMode) -> Seq<char> {
    match mode {
        SourceMode::Payload => "Some(&*self.0)"@,
        SourceMode::Forwarded => "self.0.source()"@,
    }
}

/// The visibility prefix a flag renders to.
pub open spec fn vis_spec(vis_public: bool) -> Seq<char> {
    if vis_public {
        "pub "@
    } else {
        Seq::<char>::empty()
    }
}

/// The source text one emitted operation renders to.
pub open spec fn render_op_spec(op: OpView) -> Seq<char> {
    match op {
        OpView::BoxingConstructor { inner, wrapper } => "impl "@ + inner
            + " { pub fn into_box(self) -> "@ + wrapper + " { "@ + wrapper
            + "(Box::new(self)) } }\n"@,
        OpView::WrapperDecl { wrapper, inner, vis_public } => vis_spec(vis_public) + "struct "@
            + wrapper + "("@ + vis_spec(vis_public) + "Box<"@ + inner + ">);\n"@,
        OpView::DisplayDelegation { wrapper } => "impl std::fmt::Display for "@ + wrapper
            + " { fn fmt(&self, f: &mut std::fmt::Formatter<'_>) -> std::fmt::Result { std::fmt::Display::fmt(&self.0, f) } }\n"@,
        OpView::SourceDelegation { wrapper, mode } => "impl std::error::Error for "@ + wrapper
            + " { fn source(&self) -> Option<&(dyn std::error::Error + 'static)> { "@
            + source_body_spec(mode) + " } }\n"@,
        OpView::AccessorPair { wrapper, inner, as_name, into_name } => "impl "@ + wrapper
            + " { pub fn "@ + as_name + "(&self) -> &"@ + inner + " { &self.0 } pub fn "@
            + into_name + "(self) -> "@ + inner + " { *self.0 } }\n"@,
        OpView::ConversionBridge { wrapper, inner } => "impl<E> From<E> for "@ + wrapper
            + " where "@ + inner + ": From<E> { fn from(err: E) -> Self { "@ + wrapper
            + "(Box::new("@ + inner + "::from(err))) } }\n"@,
    }
}

/// The source text a whole artifact set renders to, in emission order.
pub open spec fn render_ops_spec(ops: Seq<OpView>) -> Seq<char>
    decreases ops.len(),
{
    if ops.len() == 0 {
        Seq::<char>::empty()
    } else {
        render_op_spec(ops[0]) + render_ops_spec(ops.skip(1))
    }
}

/// Appending one more operation extends the rendered text by that
/// operation's text.
proof fn lemma_render_ops_snoc(ops: Seq<OpView>, op: OpView)
    ensures
        render_ops_spec(ops.push(op)) == render_ops_spec(ops) + render_op_spec(op),
    decreases ops.len(),
{
    if ops.len() == 0 {
        assert(ops.push(op)[0] == op);
        assert(ops.push(op).skip(1) =~= Seq::<OpView>::empty());
        assert(render_ops_spec(ops.push(op)) == render_op_spec(op) + render_ops_spec(
            Seq::<OpView>::empty(),
        ));
        assert(render_op_spec(op) + Seq::<char>::empty() =~= Seq::<char>::empty() + render_op_spec(
            op,
        ));
        assert(render_ops_spec(ops) == Seq::<char>::empty());
    } else {
        lemma_render_ops_snoc(ops.skip(1), op);
        assert(ops.push(op)[0] == ops[0]);
        assert(ops.push(op).skip(1) =~= ops.skip(1).push(op));
        assert(render_ops_spec(ops.push(op)) =~= render_ops_spec(ops) + render_op_spec(op));
    }
}

/// Renders one emitted operation as source text.
pub fn render_op(op: &EmittedOp) -> (r: String)
    ensures
        r@ == render_op_spec(op@),
{
    match op {
        EmittedOp::BoxingConstructor { inner, wrapper } => {
            let mut s = String::from_str("impl ");
            s.append(inner.as_str());
            s.append(" { pub fn into_box(self) -> ");
            s.append(wrapper.as_str());
            s.append(" { ");
            s.append(wrapper.as_str());
            s.append("(Box::new(self)) } }\n");
            s
        },
        EmittedOp::WrapperDecl { wrapper, inner, vis_public } => {
            let mut s = String::new();
            if *vis_public {
                s.append("pub ");
            }
            s.append("struct ");
            s.append(wrapper.as_str());
            s.append("(");
            if *vis_public {
                s.append("pub ");
            }
            s.append("Box<");
            s.append(inner.as_str());
            s.append(">);\n");
            proof {
                assert(s@ =~= render_op_spec(op@));
            }
            s
        },
        EmittedOp::DisplayDelegation { wrapper } => {
            let mut s = String::from_str("impl std::fmt::Display for ");
            s.append(wrapper.as_str());
            s.append(
                " { fn fmt(&self, f: &mut std::fmt::Formatter<'_>) -> std::fmt::Result { std::fmt::Display::fmt(&self.0, f) } }\n",
            );
            s
        },
        EmittedOp::SourceDelegation { wrapper, mode } => {
            let mut s = String::from_str("impl std::error::Error for ");
            s.append(wrapper.as_str());
            s.append(" { fn source(&self) -> Option<&(dyn std::error::Error + 'static)> { ");
            match mode {
                SourceMode::Payload => s.append("Some(&*self.0)"),
                SourceMode::Forwarded => s.append("self.0.source()"),
            }
            s.append(" } }\n");
            s
        },
        EmittedOp::AccessorPair { wrapper, inner, as_name, into_name } => {
            let mut s = String::from_str("impl ");
            s.append(wrapper.as_str());
            s.append(" { pub fn ");
            s.append(as_name.as_str());
            s.append("(&self) -> &");
            s.append(inner.as_str());
            s.append(" { &self.0 } pub fn ");
            s.append(into_name.as_str());
            s.append("(self) -> ");
            s.append(inner.as_str());
            s.append(" { *self.0 } }\n");
            s
        },
        EmittedOp::ConversionBridge { wrapper, inner } => {
            let mut s = String::from_str("impl<E> From<E> for ");
            s.append(wrapper.as_str());
            s.append(" where ");
            s.append(inner.as_str());
            s.append(": From<E> { fn from(err: E) -> Self { ");
            s.append(wrapper.as_str());
            s.append("(Box::new(");
            s.append(inner.as_str());
            s.append("::from(err))) } }\n");
            s
        },
    }
}

/// Renders a whole artifact set as source text, in emission order.
pub fn render_ops(ops: &Vec<EmittedOp>) -> (r: String)
    ensures
        r@ == render_ops_spec(ops.deep_view()),
{
    let mut s = String::new();
    let mut i: usize = 0;
    while i < ops.len()
        invariant
            i <= ops@.len(),
            ops.deep_view().len() == ops@.len(),
            s@ == render_ops_spec(ops.deep_view().take(i as int)),
        decreases ops@.len() - i,
    {
        let piece = render_op(&ops[i]);
        s.append(piece.as_str());
        proof {
            lemma_render_ops_snoc(ops.deep_view().take(i as int), ops.deep_view()[i as int]);
            assert(ops.deep_view().take(i as int).push(ops.deep_view()[i as int])
                =~= ops.deep_view().take(i as int + 1));
        }
        i += 1;
    }
    proof {
        assert(ops.deep_view().take(ops@.len() as int) =~= ops.deep_view());
    }
    s
}

} // verus!
