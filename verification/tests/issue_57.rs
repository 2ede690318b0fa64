//! A declaration produced by expansion elsewhere still formats: only the
//! normalized model matters, not where it came from.

use derivative::ast::{Input, PathSeg, RawBody, RawDecl, RawField, Style, TypeNode, TypeRepr};
use derivative::attr::{RawMeta, RawNested};
use derivative::bound::Generics;
use derivative::eval::{eval_fmt, Instance, Value};

fn s(x: &str) -> String {
    x.to_string()
}

/// `pub struct Test { a: i32 }` with a Debug request.
fn gen_test_type() -> Input {
    let raw = RawDecl {
        attrs: vec![RawMeta::List {
            name: s("derivative"),
            items: vec![RawNested::Meta(RawMeta::Word { name: s("Debug"), span: 0 })],
            span: 0,
        }],
        body: RawBody::Struct(
            Style::Struct,
            vec![RawField {
                attrs: vec![],
                ident: Some(s("a")),
                ty: TypeRepr {
                    nodes: vec![TypeNode::Path {
                        global: false,
                        segs: vec![PathSeg { ident: s("i32"), args: vec![] }],
                    }],
                },
                span: 0,
            }],
        ),
        generics: Generics { params: vec![], where_clause: vec![] },
        ident: s("Test"),
        span: 0,
    };
    Input::from_ast(&raw).expect("well-formed declaration")
}

#[test]
fn call_it() {
    let input = gen_test_type();
    let inst = Instance { variant: 0, fields: vec![Value::Int(42)] };
    println!("{:?}", eval_fmt(&input, &inst).unwrap());
}
