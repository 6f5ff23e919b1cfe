use error_codegen::attr::{Origin, RawAnnotation, RawBody};
use error_codegen::eval::{classify, render, ErrValue, StatusTable};
use error_codegen::expand::{expand, GeneratedImpl};
use error_codegen::expander::Json;
use error_codegen::generics::Generics;
use error_codegen::input::{RawData, RawDeriveInput, RawField, RawVariant};
use error_codegen::type_expr::TypeExpr;

fn origin(id: usize) -> Origin {
    Origin { id }
}

fn status_int(n: i128, id: usize) -> RawAnnotation {
    RawAnnotation::Status(RawBody::Int(n), origin(id))
}

fn status_ident(name: &str, id: usize) -> RawAnnotation {
    RawAnnotation::Status(RawBody::Ident(name.to_string()), origin(id))
}

fn no_generics() -> Generics {
    Generics { params: vec![], where_clause: vec![] }
}

fn str_field() -> RawField {
    RawField { attrs: vec![], ident: None, ty: TypeExpr::Other("&'static str".to_string()) }
}

fn unit_variant(name: &str, attrs: Vec<RawAnnotation>) -> RawVariant {
    RawVariant { attrs, ident: name.to_string(), fields: vec![] }
}

fn table() -> StatusTable {
    StatusTable::new(vec![
        ("BAD_REQUEST".to_string(), 400),
        ("INTERNAL_SERVER_ERROR".to_string(), 500),
    ])
}

fn value(variant: usize, display: &str) -> ErrValue {
    ErrValue { variant, display: display.to_string(), inner_status: 500 }
}

// `MyError`: a tuple record with `status(400)`.
fn my_error() -> GeneratedImpl {
    let node = RawDeriveInput {
        origin: origin(1),
        ident: "MyError".to_string(),
        generics: no_generics(),
        attrs: vec![RawAnnotation::Other(origin(2)), status_int(400, 3)],
        data: RawData::Struct(vec![str_field()]),
    };
    expand::<Json>(node).unwrap()
}

// `MyError2`: a tuple record with `status(BAD_REQUEST)`.
fn my_error2() -> GeneratedImpl {
    let node = RawDeriveInput {
        origin: origin(4),
        ident: "MyError2".to_string(),
        generics: no_generics(),
        attrs: vec![RawAnnotation::Other(origin(5)), status_ident("BAD_REQUEST", 6)],
        data: RawData::Struct(vec![str_field()]),
    };
    expand::<Json>(node).unwrap()
}

// `MyEnum`: type-level `status(400)`, `Internal` overridden to `status(500)`.
fn my_enum() -> GeneratedImpl {
    let node = RawDeriveInput {
        origin: origin(7),
        ident: "MyEnum".to_string(),
        generics: no_generics(),
        attrs: vec![status_int(400, 8)],
        data: RawData::Enum(vec![
            unit_variant("BadRequest", vec![]),
            unit_variant("AnotherBadRequest", vec![]),
            unit_variant("Internal", vec![status_int(500, 9)]),
        ]),
    };
    expand::<Json>(node).unwrap()
}

// `MyEnum2`: no type-level default, each variant annotated.
fn my_enum2() -> GeneratedImpl {
    let node = RawDeriveInput {
        origin: origin(10),
        ident: "MyEnum2".to_string(),
        generics: no_generics(),
        attrs: vec![],
        data: RawData::Enum(vec![
            unit_variant("BadRequest", vec![status_ident("BAD_REQUEST", 11)]),
            unit_variant("AnotherBadRequest", vec![status_int(400, 12)]),
            unit_variant("Internal", vec![status_int(500, 13)]),
        ]),
    };
    expand::<Json>(node).unwrap()
}

#[test]
fn test_basic_basic() {
    let t = table();
    let e = value(0, "Error: xd");

    let g = my_error();
    assert_eq!(classify(&g, &e, &t), Some(400));
    let g2 = my_error2();
    assert_eq!(classify(&g2, &e, &t), Some(400));
    assert_eq!(render(&g, &e).body, r#"{"error":"Error: xd"}"#);
}

#[test]
fn test_basic_basic_enum() {
    let t = table();
    let g = my_enum();
    let g2 = my_enum2();

    assert_eq!(classify(&g, &value(0, "a"), &t), Some(400));
    assert_eq!(classify(&g, &value(1, "b"), &t), Some(400));
    assert_eq!(classify(&g, &value(2, "c"), &t), Some(500));
    assert_eq!(classify(&g2, &value(0, "a"), &t), Some(400));
    assert_eq!(classify(&g2, &value(1, "b"), &t), Some(400));
    assert_eq!(classify(&g2, &value(2, "c"), &t), Some(500));
    assert_eq!(render(&g, &value(0, "a")).body, r#"{"error":"a"}"#);
    assert_eq!(render(&g, &value(1, "b")).body, r#"{"error":"b"}"#);
    assert_eq!(render(&g, &value(2, "c")).body, r#"{"error":"c"}"#);
}
