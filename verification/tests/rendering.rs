//! Tests pinning the exact source text each operation renders to.

use boxed_error::emit::{EmittedOp, SourceMode};
use boxed_error::render::{render_op, render_ops};

fn boxing() -> EmittedOp {
    EmittedOp::BoxingConstructor {
        inner: "MyErrorKind".to_string(),
        wrapper: "MyError".to_string(),
    }
}

#[test]
fn renders_boxing_constructor() {
    assert_eq!(
        render_op(&boxing()),
        "impl MyErrorKind { pub fn into_box(self) -> MyError { MyError(Box::new(self)) } }\n"
    );
}

#[test]
fn renders_wrapper_decl() {
    let op = EmittedOp::WrapperDecl {
        wrapper: "Foo".to_string(),
        inner: "FooKind".to_string(),
        vis_public: true,
    };
    assert_eq!(render_op(&op), "pub struct Foo(pub Box<FooKind>);\n");
    let op = EmittedOp::WrapperDecl {
        wrapper: "Foo".to_string(),
        inner: "FooKind".to_string(),
        vis_public: false,
    };
    assert_eq!(render_op(&op), "struct Foo(Box<FooKind>);\n");
}

#[test]
fn renders_display_as_pure_delegation() {
    let op = EmittedOp::DisplayDelegation {
        wrapper: "MyError".to_string(),
    };
    let text = render_op(&op);
    // The wrapper's rendering is delegation to the payload, verbatim: the
    // impl contributes no text of its own around the payload's formatting.
    assert_eq!(
        text,
        "impl std::fmt::Display for MyError { fn fmt(&self, f: &mut std::fmt::Formatter<'_>) -> std::fmt::Result { std::fmt::Display::fmt(&self.0, f) } }\n"
    );
}

#[test]
fn renders_source_delegation_both_modes() {
    let op = EmittedOp::SourceDelegation {
        wrapper: "Foo".to_string(),
        mode: SourceMode::Payload,
    };
    assert_eq!(
        render_op(&op),
        "impl std::error::Error for Foo { fn source(&self) -> Option<&(dyn std::error::Error + 'static)> { Some(&*self.0) } }\n"
    );
    let op = EmittedOp::SourceDelegation {
        wrapper: "Foo".to_string(),
        mode: SourceMode::Forwarded,
    };
    assert_eq!(
        render_op(&op),
        "impl std::error::Error for Foo { fn source(&self) -> Option<&(dyn std::error::Error + 'static)> { self.0.source() } }\n"
    );
}

#[test]
fn renders_accessor_pair() {
    let op = EmittedOp::AccessorPair {
        wrapper: "MyError".to_string(),
        inner: "MyErrorKind".to_string(),
        as_name: "as_kind".to_string(),
        into_name: "into_kind".to_string(),
    };
    assert_eq!(
        render_op(&op),
        "impl MyError { pub fn as_kind(&self) -> &MyErrorKind { &self.0 } pub fn into_kind(self) -> MyErrorKind { *self.0 } }\n"
    );
}

#[test]
fn renders_conversion_bridge() {
    let op = EmittedOp::ConversionBridge {
        wrapper: "MyError".to_string(),
        inner: "MyErrorKind".to_string(),
    };
    assert_eq!(
        render_op(&op),
        "impl<E> From<E> for MyError where MyErrorKind: From<E> { fn from(err: E) -> Self { MyError(Box::new(MyErrorKind::from(err))) } }\n"
    );
}

#[test]
fn renders_sets_in_emission_order() {
    let ops = vec![
        boxing(),
        EmittedOp::DisplayDelegation {
            wrapper: "MyError".to_string(),
        },
    ];
    let expected = format!("{}{}", render_op(&ops[0]), render_op(&ops[1]));
    assert_eq!(render_ops(&ops), expected);
    let empty: Vec<EmittedOp> = Vec::new();
    assert_eq!(render_ops(&empty), "");
}
