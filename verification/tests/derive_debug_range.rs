//! The display-range extension of the formatting directives: a field
//! holding a sequence can keep only a leading and a trailing window, with
//! an elision mark between them.

use derivative::ast::{Input, PathSeg, RawBody, RawDecl, RawField, Style, TypeNode, TypeRepr};
use derivative::attr::{RawLit, RawMeta, RawNested};
use derivative::bound::Generics;
use derivative::eval::{eval_fmt, Instance, Value};

fn s(x: &str) -> String {
    x.to_string()
}

fn word(name: &str) -> RawNested {
    RawNested::Meta(RawMeta::Word { name: s(name), span: 0 })
}

fn kv(key: &str, value: &str) -> RawNested {
    RawNested::Meta(RawMeta::NameValue {
        name: s(key),
        value: RawLit::Str { value: s(value), span: 0 },
        span: 0,
    })
}

fn list(name: &str, items: Vec<RawNested>) -> RawNested {
    RawNested::Meta(RawMeta::List { name: s(name), items, span: 0 })
}

fn derivative_attr(items: Vec<RawNested>) -> Vec<RawMeta> {
    vec![RawMeta::List { name: s("derivative"), items, span: 0 }]
}

fn vec_usize_ty() -> TypeRepr {
    TypeRepr {
        nodes: vec![
            TypeNode::Path {
                global: false,
                segs: vec![PathSeg { ident: s("usize"), args: vec![] }],
            },
            TypeNode::Path {
                global: false,
                segs: vec![PathSeg { ident: s("Vec"), args: vec![0] }],
            },
        ],
    }
}

/// A struct with one `bar: Vec<usize>` field carrying a display range.
fn range_struct(name: &str, range: &str) -> Input {
    let raw = RawDecl {
        attrs: derivative_attr(vec![word("Debug")]),
        body: RawBody::Struct(
            Style::Struct,
            vec![RawField {
                attrs: derivative_attr(vec![list("Debug", vec![kv("range", range)])]),
                ident: Some(s("bar")),
                ty: vec_usize_ty(),
                span: 0,
            }],
        ),
        generics: Generics { params: vec![], where_clause: vec![] },
        ident: s(name),
        span: 0,
    };
    Input::from_ast(&raw).expect("well-formed declaration")
}

fn bar_instance(n: usize) -> Instance {
    let mut v: Vec<i64> = Vec::new();
    for i in 0..n {
        v.push(i as i64);
    }
    Instance { variant: 0, fields: vec![Value::IntSeq(v)] }
}

#[test]
fn beginning() {
    let input = range_struct("Beginning", "3..");
    let expected = [
        "Beginning { bar: [] }",
        "Beginning { bar: [0] }",
        "Beginning { bar: [0, 1] }",
        "Beginning { bar: [0, 1, 2] }",
    ];

    let expected = expected
        .iter()
        .chain(std::iter::repeat(&"Beginning { bar: [0, 1, 2, ..] }"));

    for (i, &expected) in expected.take(10).enumerate() {
        assert_eq!(eval_fmt(&input, &bar_instance(i)).unwrap(), expected);
    }
}

#[test]
fn end() {
    let input = range_struct("End", "..4");
    let expected = [
        "End { bar: [] }",
        "End { bar: [0] }",
        "End { bar: [0, 1] }",
        "End { bar: [0, 1, 2] }",
        "End { bar: [0, 1, 2, 3] }",
        "End { bar: [.., 1, 2, 3, 4] }",
        "End { bar: [.., 2, 3, 4, 5] }",
    ];

    for (i, &expected) in expected.iter().enumerate() {
        assert_eq!(eval_fmt(&input, &bar_instance(i)).unwrap(), expected);
    }
}

#[test]
fn both() {
    let input = range_struct("Both", "3..4");
    let expected = [
        "Both { bar: [] }",
        "Both { bar: [0] }",
        "Both { bar: [0, 1] }",
        "Both { bar: [0, 1, 2] }",
        "Both { bar: [0, 1, 2, 3] }",
        "Both { bar: [0, 1, 2, 3, 4] }",
        "Both { bar: [0, 1, 2, 3, 4, 5] }",
        "Both { bar: [0, 1, 2, 3, 4, 5, 6] }",
        "Both { bar: [0, 1, 2, .., 4, 5, 6, 7] }",
        "Both { bar: [0, 1, 2, .., 5, 6, 7, 8] }",
        "Both { bar: [0, 1, 2, .., 6, 7, 8, 9] }",
        "Both { bar: [0, 1, 2, .., 7, 8, 9, 10] }",
    ];

    for (i, &expected) in expected.iter().enumerate() {
        assert_eq!(eval_fmt(&input, &bar_instance(i)).unwrap(), expected);
    }
}

#[test]
fn none() {
    let input = range_struct("None", "..");
    let expected = [
        "None { bar: [] }",
        "None { bar: [..] }",
        "None { bar: [..] }",
        "None { bar: [..] }",
    ];

    for (i, &expected) in expected.iter().enumerate() {
        assert_eq!(eval_fmt(&input, &bar_instance(i)).unwrap(), expected);
    }
}
