//! Scenario tests for the comparison, hashing and default-construction
//! semantics of the generated code.

use std::cmp::Ordering;

use derivative::ast::{Input, PathSeg, RawBody, RawDecl, RawField, RawVariant, Style, TypeNode,
    TypeRepr};
use derivative::attr::{ConfigError, RawLit, RawMeta, RawNested};
use derivative::bound::Generics;
use derivative::cmp::derive_partial_ord;
use derivative::default::derive as derive_default;
use derivative::eval::{eval_cmp, eval_default, eval_eq, eval_fmt, eval_hash, Instance, OrdKind,
    Value};

fn s(x: &str) -> String {
    x.to_string()
}

fn word(name: &str) -> RawNested {
    RawNested::Meta(RawMeta::Word { name: s(name), span: 0 })
}

fn kv(key: &str, value: &str) -> RawNested {
    RawNested::Meta(RawMeta::NameValue {
        name: s(key),
        value: RawLit::Str { value: s(value), span: 0 },
        span: 0,
    })
}

fn list(name: &str, items: Vec<RawNested>) -> RawNested {
    RawNested::Meta(RawMeta::List { name: s(name), items, span: 0 })
}

fn derivative_attr(items: Vec<RawNested>) -> Vec<RawMeta> {
    vec![RawMeta::List { name: s("derivative"), items, span: 0 }]
}

fn path_ty(name: &str) -> TypeRepr {
    TypeRepr {
        nodes: vec![TypeNode::Path {
            global: false,
            segs: vec![PathSeg { ident: s(name), args: vec![] }],
        }],
    }
}

fn field(name: Option<&str>, attrs: Vec<RawMeta>, ty: TypeRepr) -> RawField {
    RawField { attrs, ident: name.map(s), ty, span: 0 }
}

fn no_generics() -> Generics {
    Generics { params: vec![], where_clause: vec![] }
}

fn build(raw: RawDecl) -> Input {
    Input::from_ast(&raw).expect("well-formed declaration")
}

/// `Point { x: i32, y: i32 }` with `y` ignored for equality.
fn point_type() -> Input {
    build(RawDecl {
        attrs: derivative_attr(vec![word("PartialEq"), word("Debug"), word("Hash")]),
        body: RawBody::Struct(
            Style::Struct,
            vec![
                field(Some("x"), vec![], path_ty("i32")),
                field(
                    Some("y"),
                    derivative_attr(vec![kv("PartialEq", "ignore")]),
                    path_ty("i32"),
                ),
            ],
        ),
        generics: no_generics(),
        ident: s("Point"),
        span: 0,
    })
}

fn point(x: i64, y: i64) -> Instance {
    Instance { variant: 0, fields: vec![Value::Int(x), Value::Int(y)] }
}

#[test]
fn struct_equality_with_ignored_field() {
    let input = point_type();
    assert!(eval_eq(&input, &point(1, 1), &point(1, 2)).unwrap());
    assert!(!eval_eq(&input, &point(1, 1), &point(2, 1)).unwrap());
}

#[test]
fn ignoring_for_one_trait_leaves_others_alone() {
    // The same `y`-ignored-for-equality point still shows and hashes `y`.
    let input = point_type();
    assert_eq!(eval_fmt(&input, &point(1, 2)).unwrap(), "Point { x: 1, y: 2 }");
    assert_ne!(
        eval_hash(&input, &point(1, 1)).unwrap(),
        eval_hash(&input, &point(1, 2)).unwrap()
    );
}

#[test]
fn enum_ordering_by_declaration_order() {
    // enum E { A, B(i32) } opted into ordering.
    let input = build(RawDecl {
        attrs: derivative_attr(vec![kv("PartialOrd", "feature_allow_slow_enum")]),
        body: RawBody::Enum(vec![
            RawVariant { attrs: vec![], ident: s("A"), style: Style::Unit, fields: vec![] },
            RawVariant {
                attrs: vec![],
                ident: s("B"),
                style: Style::Tuple,
                fields: vec![field(None, vec![], path_ty("i32"))],
            },
        ]),
        generics: no_generics(),
        ident: s("E"),
        span: 0,
    });
    let a = Instance { variant: 0, fields: vec![] };
    let b = Instance { variant: 1, fields: vec![Value::Int(-1000)] };
    assert_eq!(
        eval_cmp(&input, &a, &b, OrdKind::Partial).unwrap(),
        Some(Ordering::Less)
    );
}

#[test]
fn lexicographic_tie_break() {
    // struct S { a: i32, b: i32 } with ordering: the first field dominates.
    let input = build(RawDecl {
        attrs: derivative_attr(vec![word("PartialOrd")]),
        body: RawBody::Struct(
            Style::Struct,
            vec![
                field(Some("a"), vec![], path_ty("i32")),
                field(Some("b"), vec![], path_ty("i32")),
            ],
        ),
        generics: no_generics(),
        ident: s("S"),
        span: 0,
    });
    let v = |a: i64, b: i64| Instance { variant: 0, fields: vec![Value::Int(a), Value::Int(b)] };
    assert_eq!(
        eval_cmp(&input, &v(1, 2), &v(1, 3), OrdKind::Partial).unwrap(),
        Some(Ordering::Less)
    );
    assert_ne!(
        eval_cmp(&input, &v(2, 1), &v(1, 3), OrdKind::Partial).unwrap(),
        Some(Ordering::Less)
    );
}

#[test]
fn default_variant_selection() {
    // An enum with exactly one default-marked variant builds that variant
    // from each field's override-or-zero value.
    let input = build(RawDecl {
        attrs: derivative_attr(vec![word("Default")]),
        body: RawBody::Enum(vec![
            RawVariant { attrs: vec![], ident: s("A"), style: Style::Unit, fields: vec![] },
            RawVariant {
                attrs: derivative_attr(vec![word("Default")]),
                ident: s("B"),
                style: Style::Tuple,
                fields: vec![
                    field(
                        None,
                        derivative_attr(vec![list("Default", vec![kv("value", "42")])]),
                        path_ty("i32"),
                    ),
                    field(None, vec![], path_ty("i32")),
                ],
            },
        ]),
        generics: no_generics(),
        ident: s("D"),
        span: 0,
    });
    let inst = eval_default(&input).unwrap().unwrap();
    assert_eq!(inst.variant, 1);
    assert!(matches!(inst.fields[0], Value::Int(42)));
    assert!(matches!(inst.fields[1], Value::Int(0)));
    assert!(derive_default(&input).is_ok());
}

#[test]
fn ambiguous_default_variant() {
    // Zero markers and two markers are both configuration errors.
    let mk = |marked: (bool, bool)| {
        build(RawDecl {
            attrs: derivative_attr(vec![word("Default")]),
            body: RawBody::Enum(vec![
                RawVariant {
                    attrs: if marked.0 { derivative_attr(vec![word("Default")]) } else { vec![] },
                    ident: s("A"),
                    style: Style::Unit,
                    fields: vec![],
                },
                RawVariant {
                    attrs: if marked.1 { derivative_attr(vec![word("Default")]) } else { vec![] },
                    ident: s("B"),
                    style: Style::Unit,
                    fields: vec![],
                },
            ]),
            generics: no_generics(),
            ident: s("D"),
            span: 7,
        })
    };
    for marked in [(false, false), (true, true)] {
        let input = mk(marked);
        assert!(matches!(
            eval_default(&input),
            Err(ConfigError::AmbiguousDefaultVariant { span: 7 })
        ));
        assert!(matches!(
            derive_default(&input),
            Err(ConfigError::AmbiguousDefaultVariant { span: 7 })
        ));
    }
}

#[test]
fn missing_enum_opt_in() {
    // An enum requesting PartialOrd without `feature_allow_slow_enum`
    // yields the opt-in error and emits no ordering code, while other
    // requested traits still succeed.
    let input = build(RawDecl {
        attrs: derivative_attr(vec![word("PartialOrd"), word("Debug")]),
        body: RawBody::Enum(vec![RawVariant {
            attrs: vec![],
            ident: s("A"),
            style: Style::Unit,
            fields: vec![],
        }]),
        generics: no_generics(),
        ident: s("E"),
        span: 3,
    });
    let r = derive_partial_ord(&input);
    match r {
        Err(ConfigError::EnumNotOptedIn { trait_name, span }) => {
            assert_eq!(trait_name, "PartialOrd");
            assert_eq!(span, 3);
        },
        _ => panic!("expected the opt-in error"),
    }
    let (fragments, errors) = derivative::derive_impls(&input);
    assert_eq!(errors.len(), 1);
    assert!(!fragments.contains("partial_cmp"));
    assert!(fragments.contains("fn fmt"));
}

#[test]
fn all_unit_enum_fast_path() {
    // On an all-unit enum, equality is exactly equality of the tags.
    let input = build(RawDecl {
        attrs: derivative_attr(vec![kv("PartialEq", "feature_allow_slow_enum")]),
        body: RawBody::Enum(vec![
            RawVariant { attrs: vec![], ident: s("A"), style: Style::Unit, fields: vec![] },
            RawVariant { attrs: vec![], ident: s("B"), style: Style::Unit, fields: vec![] },
        ]),
        generics: no_generics(),
        ident: s("E"),
        span: 0,
    });
    let a = Instance { variant: 0, fields: vec![] };
    let b = Instance { variant: 1, fields: vec![] };
    assert!(eval_eq(&input, &a, &a).unwrap());
    assert!(!eval_eq(&input, &a, &b).unwrap());
}

#[test]
fn transparent_formatting() {
    // A transparent single-field wrapper formats as its inner value.
    let input = build(RawDecl {
        attrs: derivative_attr(vec![kv("Debug", "transparent")]),
        body: RawBody::Struct(
            Style::Tuple,
            vec![field(None, vec![], path_ty("i32"))],
        ),
        generics: no_generics(),
        ident: s("Wrapper"),
        span: 0,
    });
    let inst = Instance { variant: 0, fields: vec![Value::Int(-7)] };
    assert_eq!(eval_fmt(&input, &inst).unwrap(), "-7");
}

#[test]
fn hash_ignores_marked_field() {
    // A field ignored for hashing contributes nothing to the trace; the
    // discriminant of an enum always does.
    let input = build(RawDecl {
        attrs: derivative_attr(vec![word("Hash")]),
        body: RawBody::Enum(vec![RawVariant {
            attrs: vec![],
            ident: s("V"),
            style: Style::Tuple,
            fields: vec![
                field(None, vec![], path_ty("i64")),
                field(
                    None,
                    derivative_attr(vec![kv("Hash", "ignore")]),
                    path_ty("i64"),
                ),
            ],
        }]),
        generics: no_generics(),
        ident: s("H"),
        span: 0,
    });
    let v = |a: i64, b: i64| Instance { variant: 0, fields: vec![Value::Int(a), Value::Int(b)] };
    assert_eq!(eval_hash(&input, &v(5, 1)).unwrap(), vec![0, 5]);
    assert_eq!(
        eval_hash(&input, &v(5, 1)).unwrap(),
        eval_hash(&input, &v(5, 99)).unwrap()
    );
}
