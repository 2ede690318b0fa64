//! The token text of emitted implementation fragments, and the matcher's
//! patterns and synthetic bindings.

use derivative::ast::{Input, PathSeg, RawBody, RawDecl, RawField, RawVariant, Style, TypeNode,
    TypeRepr};
use derivative::attr::{RawLit, RawMeta, RawNested, TraitKind};
use derivative::bound::{GenericParam, Generics, TypeParam};
use derivative::clone::{derive_clone, derive_copy};
use derivative::cmp::{derive_eq, derive_partial_eq};
use derivative::matcher::{BindingStyle, Matcher};
use derivative::utils::hygienic_type_parameter;

fn s(x: &str) -> String {
    x.to_string()
}

fn word(name: &str) -> RawNested {
    RawNested::Meta(RawMeta::Word { name: s(name), span: 0 })
}

fn kv(key: &str, value: &str) -> RawNested {
    RawNested::Meta(RawMeta::NameValue {
        name: s(key),
        value: RawLit::Str { value: s(value), span: 0 },
        span: 0,
    })
}

fn list(name: &str, items: Vec<RawNested>) -> RawNested {
    RawNested::Meta(RawMeta::List { name: s(name), items, span: 0 })
}

fn derivative_attr(items: Vec<RawNested>) -> Vec<RawMeta> {
    vec![RawMeta::List { name: s("derivative"), items, span: 0 }]
}

fn path_ty(name: &str) -> TypeRepr {
    TypeRepr {
        nodes: vec![TypeNode::Path {
            global: false,
            segs: vec![PathSeg { ident: s(name), args: vec![] }],
        }],
    }
}

fn no_generics() -> Generics {
    Generics { params: vec![], where_clause: vec![] }
}

fn build(raw: RawDecl) -> Input {
    Input::from_ast(&raw).expect("well-formed declaration")
}

fn empty_struct(attrs: Vec<RawMeta>) -> Input {
    build(RawDecl {
        attrs,
        body: RawBody::Struct(Style::Unit, vec![]),
        generics: no_generics(),
        ident: s("Empty"),
        span: 0,
    })
}

#[test]
fn eq_marker_impl_text() {
    let input = empty_struct(derivative_attr(vec![word("Eq"), word("Copy")]));
    assert_eq!(derive_eq(&input), "impl ::std::cmp::Eq for Empty { }");
    assert_eq!(derive_copy(&input), "impl ::std::marker::Copy for Empty { }");
}

#[test]
fn partial_eq_impl_text() {
    let input = build(RawDecl {
        attrs: derivative_attr(vec![word("PartialEq")]),
        body: RawBody::Struct(
            Style::Tuple,
            vec![RawField { attrs: vec![], ident: None, ty: path_ty("i32"), span: 0 }],
        ),
        generics: no_generics(),
        ident: s("W"),
        span: 0,
    });
    assert_eq!(
        derive_partial_eq(&input).unwrap(),
        "impl ::std::cmp::PartialEq for W { \
         fn eq ( & self , other : & Self ) -> bool { true && \
         match ( & * self , & * other ) { \
         ( W ( ref __self_0 , ) , W ( ref __other_0 , ) ) => \
         { true && __self_0 == __other_0 } \
         _ => unreachable ! ( ) , } }}"
    );
}

#[test]
fn clone_of_copy_type_dereferences() {
    let input = empty_struct(derivative_attr(vec![word("Clone"), word("Copy")]));
    assert_eq!(
        derive_clone(&input),
        "impl ::std::clone::Clone for Empty { fn clone ( & self ) -> Self { * self }}"
    );
}

#[test]
fn inferred_bound_appears_in_where_clause() {
    let input = build(RawDecl {
        attrs: derivative_attr(vec![word("Debug")]),
        body: RawBody::Struct(
            Style::Struct,
            vec![RawField { attrs: vec![], ident: Some(s("t")), ty: path_ty("T"), span: 0 }],
        ),
        generics: Generics {
            params: vec![GenericParam::Type(TypeParam { ident: s("T"), default: None })],
            where_clause: vec![],
        },
        ident: s("G"),
        span: 0,
    });
    let text = derivative::debug::derive(&input);
    assert!(text.contains("impl < T > ::std::fmt::Debug for G < T > "));
    assert!(text.contains("where T : ::std::fmt::Debug "));
}

#[test]
fn custom_comparison_function_is_spliced() {
    let input = build(RawDecl {
        attrs: derivative_attr(vec![word("PartialEq")]),
        body: RawBody::Struct(
            Style::Tuple,
            vec![RawField {
                attrs: derivative_attr(vec![list(
                    "PartialEq",
                    vec![kv("compare_with", "same_parity")],
                )]),
                ident: None,
                ty: path_ty("u8"),
                span: 0,
            }],
        ),
        generics: no_generics(),
        ident: s("Parity"),
        span: 0,
    });
    let text = derive_partial_eq(&input).unwrap();
    assert!(text.contains("true && same_parity ( __self_0 , __other_0 )"));
}

#[test]
fn matcher_patterns_and_bindings() {
    let input = build(RawDecl {
        attrs: derivative_attr(vec![kv("PartialEq", "feature_allow_slow_enum")]),
        body: RawBody::Enum(vec![
            RawVariant { attrs: vec![], ident: s("A"), style: Style::Unit, fields: vec![] },
            RawVariant {
                attrs: vec![],
                ident: s("B"),
                style: Style::Tuple,
                fields: vec![RawField {
                    attrs: vec![],
                    ident: None,
                    ty: path_ty("i32"),
                    span: 0,
                }],
            },
            RawVariant {
                attrs: vec![],
                ident: s("C"),
                style: Style::Struct,
                fields: vec![RawField {
                    attrs: vec![],
                    ident: Some(s("x")),
                    ty: path_ty("i32"),
                    span: 0,
                }],
            },
        ]),
        generics: no_generics(),
        ident: s("E"),
        span: 0,
    });
    let arms = Matcher::new(BindingStyle::Ref).build_match_pattern(&input, "__x");
    assert_eq!(arms.len(), 3);
    assert_eq!(arms[0].pat, "E :: A");
    assert_eq!(arms[0].bindings.len(), 0);
    assert_eq!(arms[1].pat, "E :: B ( ref __x_0 , )");
    assert_eq!(arms[1].bindings[0].ident, "__x_0");
    assert_eq!(arms[1].bindings[0].field, 0);
    assert_eq!(arms[2].pat, "E :: C { x : ref __x_0 , }");
    assert_eq!(arms[2].variant.variant, 2);

    let moved = Matcher::new(BindingStyle::Move).with_name(s("v"));
    let arms = moved.build_match_pattern(&input, "v");
    assert_eq!(arms[1].pat, "E :: B ( v_0 , )");
}

#[test]
fn hygienic_hasher_parameter() {
    let input = build(RawDecl {
        attrs: derivative_attr(vec![word("Hash")]),
        body: RawBody::Struct(Style::Unit, vec![]),
        generics: Generics {
            params: vec![
                GenericParam::Type(TypeParam { ident: s("T"), default: None }),
                GenericParam::Type(TypeParam { ident: s("U"), default: None }),
            ],
            where_clause: vec![],
        },
        ident: s("S"),
        span: 0,
    });
    assert_eq!(hygienic_type_parameter(&input, "__H"), "__HTU");
    let text = derivative::hash::derive(&input);
    assert!(text.contains("fn hash < __HTU >"));
}

#[test]
fn ordering_fold_nests_first_field_outermost() {
    // struct S { a: i32, b: i32 }: the emitted tie-break must put the
    // first field's comparison outermost, with the second field's match
    // inside its Equal arm, so a decided first field short-circuits and
    // later comparators are never invoked.
    let input = build(RawDecl {
        attrs: derivative_attr(vec![word("PartialOrd")]),
        body: RawBody::Struct(
            Style::Struct,
            vec![
                RawField { attrs: vec![], ident: Some(s("a")), ty: path_ty("i32"), span: 0 },
                RawField { attrs: vec![], ident: Some(s("b")), ty: path_ty("i32"), span: 0 },
            ],
        ),
        generics: no_generics(),
        ident: s("S"),
        span: 0,
    });
    let text = derivative::cmp::derive_partial_ord(&input).unwrap();
    assert!(text.contains(
        "match ::std::cmp::PartialOrd::partial_cmp ( & ( * __self_0 ) , & ( * __other_0 ) ) \
         { ::std::option::Option::Some ( ::std::cmp::Ordering::Equal ) => \
         match ::std::cmp::PartialOrd::partial_cmp ( & ( * __self_1 ) , & ( * __other_1 ) )"
    ));
    assert!(text.contains("__derive_ordering_other => __derive_ordering_other"));
}

#[test]
fn cross_variant_ordering_is_constant() {
    // enum E { A, B } with Ord: a pair of distinct variants compares by
    // tag alone, with no field comparison at all.
    let input = build(RawDecl {
        attrs: derivative_attr(vec![kv("Ord", "feature_allow_slow_enum")]),
        body: RawBody::Enum(vec![
            RawVariant { attrs: vec![], ident: s("A"), style: Style::Unit, fields: vec![] },
            RawVariant { attrs: vec![], ident: s("B"), style: Style::Unit, fields: vec![] },
        ]),
        generics: no_generics(),
        ident: s("E"),
        span: 0,
    });
    let text = derivative::cmp::derive_ord(&input).unwrap();
    assert!(text.contains("E :: A => { match * other { \
        E :: A => { ::std::cmp::Ordering::Equal } \
        E :: B => { ::std::cmp::Ordering::Less } } }"));
    assert!(text.contains("E :: B => { match * other { \
        E :: A => { ::std::cmp::Ordering::Greater } \
        E :: B => { ::std::cmp::Ordering::Equal } } }"));
}

#[test]
fn clone_from_is_emitted_on_request() {
    // enum C { A(i32) } with Clone(clone_from = "true"): the clone_from
    // item clones field into field for matching variants and falls back
    // to a plain clone otherwise.
    let input = build(RawDecl {
        attrs: derivative_attr(vec![list("Clone", vec![kv("clone_from", "true")])]),
        body: RawBody::Enum(vec![RawVariant {
            attrs: vec![],
            ident: s("A"),
            style: Style::Tuple,
            fields: vec![RawField { attrs: vec![], ident: None, ty: path_ty("i32"), span: 0 }],
        }]),
        generics: no_generics(),
        ident: s("C"),
        span: 0,
    });
    let text = derive_clone(&input);
    assert!(text.contains("fn clone_from ( & mut self , other : & Self )"));
    assert!(text.contains("__arg_0 . clone_from ( __other_0 ) ; return ;"));
    assert!(text.contains("* self = other . clone ( ) ;"));
}
