//! The bound-inference engine: minimality over unused parameters, the
//! precedence of explicit overrides, and the `PhantomData` exception.

use derivative::ast::{Input, PathSeg, RawBody, RawDecl, RawField, Style, TypeNode, TypeRepr};
use derivative::attr::{RawLit, RawMeta, RawNested, TraitKind};
use derivative::bound::{GenericParam, Generics, TypeParam};
use derivative::utils::build_generics;

fn s(x: &str) -> String {
    x.to_string()
}

fn word(name: &str) -> RawNested {
    RawNested::Meta(RawMeta::Word { name: s(name), span: 0 })
}

fn kv(key: &str, value: &str) -> RawNested {
    RawNested::Meta(RawMeta::NameValue {
        name: s(key),
        value: RawLit::Str { value: s(value), span: 0 },
        span: 0,
    })
}

fn list(name: &str, items: Vec<RawNested>) -> RawNested {
    RawNested::Meta(RawMeta::List { name: s(name), items, span: 0 })
}

fn derivative_attr(items: Vec<RawNested>) -> Vec<RawMeta> {
    vec![RawMeta::List { name: s("derivative"), items, span: 0 }]
}

fn path_ty(name: &str) -> TypeRepr {
    TypeRepr {
        nodes: vec![TypeNode::Path {
            global: false,
            segs: vec![PathSeg { ident: s(name), args: vec![] }],
        }],
    }
}

fn field(name: &str, attrs: Vec<RawMeta>, ty: TypeRepr) -> RawField {
    RawField { attrs, ident: Some(s(name)), ty, span: 0 }
}

fn two_params() -> Generics {
    Generics {
        params: vec![
            GenericParam::Type(TypeParam { ident: s("A"), default: None }),
            GenericParam::Type(TypeParam { ident: s("B"), default: None }),
        ],
        where_clause: vec![],
    }
}

fn build(attrs: Vec<RawMeta>, fields: Vec<RawField>, generics: Generics) -> Input {
    Input::from_ast(&RawDecl {
        attrs,
        body: RawBody::Struct(Style::Struct, fields),
        generics,
        ident: s("S"),
        span: 0,
    })
    .expect("well-formed declaration")
}

#[test]
fn unused_parameter_gets_no_constraint() {
    // struct S<A, B> { a: A } requesting Debug: only A is constrained.
    let input = build(
        derivative_attr(vec![word("Debug")]),
        vec![field("a", vec![], path_ty("A"))],
        two_params(),
    );
    let (g, _) = build_generics(&input, "::std::fmt::Debug", TraitKind::Debug);
    assert_eq!(g.where_clause.len(), 1);
    assert_eq!(g.where_clause[0].param, "A");
    assert_eq!(g.where_clause[0].bounds, "::std::fmt::Debug");
}

#[test]
fn nested_occurrences_are_found() {
    // struct S<A, B> { a: Option<&(A,)> }: a shallow scan would miss A.
    let nested = TypeRepr {
        nodes: vec![
            TypeNode::Path {
                global: false,
                segs: vec![PathSeg { ident: s("A"), args: vec![] }],
            },
            TypeNode::Tuple { elems: vec![0] },
            TypeNode::Ref { inner: 1 },
            TypeNode::Path {
                global: false,
                segs: vec![PathSeg { ident: s("Option"), args: vec![2] }],
            },
        ],
    };
    let input = build(
        derivative_attr(vec![word("Debug")]),
        vec![field("a", vec![], nested)],
        two_params(),
    );
    let (g, _) = build_generics(&input, "::std::fmt::Debug", TraitKind::Debug);
    assert_eq!(g.where_clause.len(), 1);
    assert_eq!(g.where_clause[0].param, "A");
}

#[test]
fn phantom_data_carries_no_obligation() {
    // struct S<A, B> { a: PhantomData<A>, b: B }: only B is constrained.
    let phantom = TypeRepr {
        nodes: vec![
            TypeNode::Path {
                global: false,
                segs: vec![PathSeg { ident: s("A"), args: vec![] }],
            },
            TypeNode::Path {
                global: false,
                segs: vec![PathSeg { ident: s("PhantomData"), args: vec![0] }],
            },
        ],
    };
    let input = build(
        derivative_attr(vec![word("Debug")]),
        vec![field("a", vec![], phantom), field("b", vec![], path_ty("B"))],
        two_params(),
    );
    let (g, _) = build_generics(&input, "::std::fmt::Debug", TraitKind::Debug);
    assert_eq!(g.where_clause.len(), 1);
    assert_eq!(g.where_clause[0].param, "B");
}

#[test]
fn explicit_field_bounds_replace_inference() {
    // Every field carries an explicit bound, so the resulting constraint
    // set is exactly their union, whatever inference would have added.
    let input = build(
        derivative_attr(vec![word("Debug")]),
        vec![
            field(
                "a",
                derivative_attr(vec![list("Debug", vec![kv("bound", "A: MyDebug")])]),
                path_ty("A"),
            ),
            field(
                "b",
                derivative_attr(vec![list("Debug", vec![kv("bound", "B: MyDebug + Copy")])]),
                path_ty("B"),
            ),
        ],
        two_params(),
    );
    let (g, _) = build_generics(&input, "::std::fmt::Debug", TraitKind::Debug);
    assert_eq!(g.where_clause.len(), 2);
    assert_eq!(g.where_clause[0].param, "A");
    assert_eq!(g.where_clause[0].bounds, "MyDebug");
    assert_eq!(g.where_clause[1].param, "B");
    assert_eq!(g.where_clause[1].bounds, "MyDebug + Copy");
}

#[test]
fn type_level_override_wins() {
    // An explicit type-level bound list replaces inference verbatim, even
    // when empty.
    let input = build(
        derivative_attr(vec![list("Debug", vec![kv("bound", "")])]),
        vec![field("a", vec![], path_ty("A"))],
        two_params(),
    );
    let (g, _) = build_generics(&input, "::std::fmt::Debug", TraitKind::Debug);
    assert_eq!(g.where_clause.len(), 0);
}

#[test]
fn ignored_field_infers_nothing() {
    // struct S<A, B> { a: A # ignored for Debug }: no constraint at all.
    let input = build(
        derivative_attr(vec![word("Debug")]),
        vec![field(
            "a",
            derivative_attr(vec![kv("Debug", "ignore")]),
            path_ty("A"),
        )],
        two_params(),
    );
    let (g, _) = build_generics(&input, "::std::fmt::Debug", TraitKind::Debug);
    assert_eq!(g.where_clause.len(), 0);
}

#[test]
fn parameter_defaults_are_stripped() {
    let input = build(
        derivative_attr(vec![word("Debug")]),
        vec![field("a", vec![], path_ty("A"))],
        Generics {
            params: vec![GenericParam::Type(TypeParam {
                ident: s("A"),
                default: Some(s("u8")),
            })],
            where_clause: vec![],
        },
    );
    let (g, _) = build_generics(&input, "::std::fmt::Debug", TraitKind::Debug);
    match &g.params[0] {
        GenericParam::Type(t) => assert!(t.default.is_none()),
        _ => panic!("expected a type parameter"),
    }
}
