//! Tests of name resolution and of the runtime boxing laws.

use boxed_error::boxed::{box_convert, Boxed};
use boxed_error::decl::{Decl, DeclBody, Field, GenArg, PathArgs, TypeExpr};
use boxed_error::diag::Diagnostic;
use boxed_error::drive::field_driven;
use boxed_error::emit::EmittedOp;
use boxed_error::names::{infer_suffix, resolve_wrapper_name, AccessorSuffix};

#[test]
fn wrapper_name_stripping_and_override() {
    assert_eq!(
        resolve_wrapper_name("FooKind", &None).unwrap(),
        "Foo".to_string()
    );
    assert_eq!(
        resolve_wrapper_name("MyErrorKind", &None).unwrap(),
        "MyError".to_string()
    );
    assert_eq!(
        resolve_wrapper_name("Widget", &Some("WidgetError".to_string())).unwrap(),
        "WidgetError".to_string()
    );
    assert_eq!(
        resolve_wrapper_name("FooKind", &Some("Elsewhere".to_string())).unwrap(),
        "Elsewhere".to_string()
    );
    assert_eq!(
        resolve_wrapper_name("Widget", &None).unwrap_err(),
        Diagnostic::MissingKindSuffix
    );
}

#[test]
fn suffix_inference_vocabulary() {
    assert_eq!(infer_suffix("MyErrorKind"), AccessorSuffix::Kind);
    assert_eq!(infer_suffix("BazData"), AccessorSuffix::Data);
    assert_eq!(infer_suffix("Widget"), AccessorSuffix::Inner);
    assert_eq!(infer_suffix("Kind"), AccessorSuffix::Kind);
    assert_eq!(infer_suffix(""), AccessorSuffix::Inner);
    assert_eq!(AccessorSuffix::Kind.as_name(), "as_kind".to_string());
    assert_eq!(AccessorSuffix::Data.into_name(), "into_data".to_string());
    assert_eq!(AccessorSuffix::Inner.as_name(), "as_inner".to_string());
}

#[test]
fn boxing_round_trip() {
    let payload = vec![1u64, 2, 3];
    let wrapper = Boxed::into_box(payload.clone());
    assert_eq!(wrapper.into_kind(), payload);
}

#[test]
fn accessor_does_not_consume() {
    let wrapper = Boxed::into_box("a large payload".to_string());
    // Borrow the payload, then borrow it again, then still unbox it.
    assert_eq!(wrapper.as_kind(), "a large payload");
    assert_eq!(wrapper.as_kind(), "a large payload");
    assert_eq!(wrapper.into_kind(), "a large payload".to_string());
}

#[test]
fn wrapper_renders_as_payload_does() {
    let payload = "File not found".to_string();
    let rendered_payload = format!("{}", payload);
    let wrapper = Boxed::into_box(payload);
    // The wrapper exposes the very payload, so rendering through the
    // accessor is identical to rendering the payload directly.
    assert_eq!(format!("{}", wrapper.as_kind()), rendered_payload);
}

#[test]
fn conversion_bridge_converts_then_boxes() {
    let wrapper: Boxed<u64> = box_convert(7u8);
    assert_eq!(wrapper.into_kind(), 7u64);
    let wrapper: Boxed<String> = box_convert("My error");
    assert_eq!(wrapper.as_kind(), "My error");
}

fn wrapper_decl(name: &str, inner: &str) -> Decl {
    Decl {
        name: name.to_string(),
        vis_public: true,
        body: DeclBody::Struct {
            fields: vec![Field {
                name: None,
                vis_public: true,
                ty: TypeExpr::Path {
                    segments: vec!["Box".to_string()],
                    args: PathArgs::Angle(vec![GenArg::Type(TypeExpr::Path {
                        segments: vec![inner.to_string()],
                        args: PathArgs::Absent,
                    })]),
                },
            }],
        },
    }
}

#[test]
fn test_boxed_enum_error() {
    // The wrapper declaration an author writes around an enum payload whose
    // name ends in `Kind`, and the runtime behaviour of its operations.
    let ops = field_driven(&wrapper_decl("MyError", "MyErrorKind")).unwrap();
    assert_eq!(
        ops[3],
        EmittedOp::AccessorPair {
            wrapper: "MyError".to_string(),
            inner: "MyErrorKind".to_string(),
            as_name: "as_kind".to_string(),
            into_name: "into_kind".to_string(),
        }
    );
    let error = Boxed::into_box("File not found".to_string());
    assert_eq!(format!("{}", error.as_kind()), "File not found");
    assert_eq!(error.into_kind(), "File not found".to_string());
}

#[test]
fn test_boxed_struct_error() {
    // The same wrapper declaration around a struct payload whose name ends
    // in `Data`.
    let ops = field_driven(&wrapper_decl("MyError", "MyErrorData")).unwrap();
    assert_eq!(
        ops[3],
        EmittedOp::AccessorPair {
            wrapper: "MyError".to_string(),
            inner: "MyErrorData".to_string(),
            as_name: "as_data".to_string(),
            into_name: "into_data".to_string(),
        }
    );
    let error = Boxed::into_box(format!("error: {}", "My error"));
    assert_eq!(format!("{}", error.as_kind()), "error: My error");
    assert_eq!(error.into_kind(), "error: My error".to_string());
}
