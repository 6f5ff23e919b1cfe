use error_codegen::attr::{Origin, RawAnnotation, RawBody};
use error_codegen::eval::{classify, render, ErrValue, StatusTable};
use error_codegen::expand::{expand, GeneratedImpl};
use error_codegen::expander::Json;
use error_codegen::generics::Generics;
use error_codegen::input::{RawData, RawDeriveInput, RawField, RawVariant};
use error_codegen::type_expr::{PathSegment, TypeExpr};

fn origin(id: usize) -> Origin {
    Origin { id }
}

fn status_int(n: i128, id: usize) -> RawAnnotation {
    RawAnnotation::Status(RawBody::Int(n), origin(id))
}

fn status_transparent(id: usize) -> RawAnnotation {
    RawAnnotation::Status(RawBody::Ident("transparent".to_string()), origin(id))
}

fn no_generics() -> Generics {
    Generics { params: vec![], where_clause: vec![] }
}

fn path_ty(name: &str) -> TypeExpr {
    TypeExpr::Path(vec![PathSegment { ident: name.to_string(), args: vec![] }])
}

fn table() -> StatusTable {
    StatusTable::new(vec![
        ("BAD_REQUEST".to_string(), 400),
        ("INTERNAL_SERVER_ERROR".to_string(), 500),
    ])
}

// `MyError(MyError2)`: transparent delegation to a record fixed at 500.
fn my_error() -> GeneratedImpl {
    let node = RawDeriveInput {
        origin: origin(1),
        ident: "MyError".to_string(),
        generics: no_generics(),
        attrs: vec![RawAnnotation::Other(origin(2)), status_transparent(3)],
        data: RawData::Struct(vec![RawField {
            attrs: vec![],
            ident: None,
            ty: path_ty("MyError2"),
        }]),
    };
    expand::<Json>(node).unwrap()
}

// `MyEnum`: type-level 400; `Internal(MyError2)` transparent.
fn my_enum() -> GeneratedImpl {
    let node = RawDeriveInput {
        origin: origin(4),
        ident: "MyEnum".to_string(),
        generics: no_generics(),
        attrs: vec![status_int(400, 5)],
        data: RawData::Enum(vec![
            RawVariant { attrs: vec![], ident: "BadRequest".to_string(), fields: vec![] },
            RawVariant { attrs: vec![], ident: "AnotherBadRequest".to_string(), fields: vec![] },
            RawVariant {
                attrs: vec![status_transparent(6)],
                ident: "Internal".to_string(),
                fields: vec![RawField { attrs: vec![], ident: None, ty: path_ty("MyError2") }],
            },
        ]),
    };
    expand::<Json>(node).unwrap()
}

#[test]
fn transparent() {
    let t = table();

    // The contained `MyError2` classifies itself to 500.
    let e1 = ErrValue { variant: 0, display: "Error: Error2".to_string(), inner_status: 500 };
    let g = my_error();
    assert_eq!(classify(&g, &e1, &t), Some(500));
    assert_eq!(render(&g, &e1).body, r#"{"error":"Error: Error2"}"#);

    let ge = my_enum();
    let a = ErrValue { variant: 0, display: "a".to_string(), inner_status: 500 };
    let b = ErrValue { variant: 1, display: "b".to_string(), inner_status: 500 };
    let c = ErrValue { variant: 2, display: "c".to_string(), inner_status: 500 };
    assert_eq!(classify(&ge, &a, &t), Some(400));
    assert_eq!(classify(&ge, &b, &t), Some(400));
    assert_eq!(classify(&ge, &c, &t), Some(500));
    assert_eq!(render(&ge, &a).body, r#"{"error":"a"}"#);
    assert_eq!(render(&ge, &b).body, r#"{"error":"b"}"#);
    assert_eq!(render(&ge, &c).body, r#"{"error":"c"}"#);
}
