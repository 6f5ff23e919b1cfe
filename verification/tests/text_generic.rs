use error_codegen::attr::{Origin, RawAnnotation, RawBody};
use error_codegen::eval::{classify, render, ErrValue, StatusTable};
use error_codegen::expand::{expand, GeneratedImpl};
use error_codegen::expander::Text;
use error_codegen::generics::Generics;
use error_codegen::input::{RawData, RawDeriveInput, RawField, RawVariant};
use error_codegen::type_expr::{PathSegment, TypeExpr};

fn origin(id: usize) -> Origin {
    Origin { id }
}

fn status_int(n: i128, id: usize) -> RawAnnotation {
    RawAnnotation::Status(RawBody::Int(n), origin(id))
}

fn status_transparent(id: usize) -> RawAnnotation {
    RawAnnotation::Status(RawBody::Ident("transparent".to_string()), origin(id))
}

fn path_ty(name: &str) -> TypeExpr {
    TypeExpr::Path(vec![PathSegment { ident: name.to_string(), args: vec![] }])
}

fn table() -> StatusTable {
    StatusTable::new(vec![
        ("BAD_REQUEST".to_string(), 400),
        ("INTERNAL_SERVER_ERROR".to_string(), 500),
    ])
}

fn my_error() -> GeneratedImpl {
    let node = RawDeriveInput {
        origin: origin(1),
        ident: "MyError".to_string(),
        generics: Generics { params: vec!["T".to_string()], where_clause: vec![] },
        attrs: vec![RawAnnotation::Other(origin(2)), status_transparent(3)],
        data: RawData::Struct(vec![RawField { attrs: vec![], ident: None, ty: path_ty("T") }]),
    };
    expand::<Text>(node).unwrap()
}

fn my_enum() -> GeneratedImpl {
    let node = RawDeriveInput {
        origin: origin(4),
        ident: "MyEnum".to_string(),
        generics: Generics { params: vec!["T".to_string()], where_clause: vec![] },
        attrs: vec![status_int(400, 5)],
        data: RawData::Enum(vec![
            RawVariant { attrs: vec![], ident: "Bad".to_string(), fields: vec![] },
            RawVariant {
                attrs: vec![status_transparent(6)],
                ident: "Delegate".to_string(),
                fields: vec![RawField { attrs: vec![], ident: None, ty: path_ty("T") }],
            },
        ]),
    };
    expand::<Text>(node).unwrap()
}

#[test]
fn generic_structs() {
    let t = table();
    let e = ErrValue { variant: 0, display: "Error: my error".to_string(), inner_status: 500 };
    let g = my_error();
    assert_eq!(classify(&g, &e, &t), Some(500));
    assert_eq!(render(&g, &e).body, "Error: my error");
}

#[test]
fn generic_enums() {
    let t = table();
    let g = my_enum();
    let e1 = ErrValue { variant: 0, display: "Bad".to_string(), inner_status: 500 };
    let e2 = ErrValue { variant: 1, display: "Delegate".to_string(), inner_status: 500 };
    assert_eq!(classify(&g, &e1, &t), Some(400));
    assert_eq!(classify(&g, &e2, &t), Some(500));
    assert_eq!(render(&g, &e1).body, "Bad");
    assert_eq!(render(&g, &e2).body, "Delegate");
}
