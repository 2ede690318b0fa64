//! The generated partial ordering: struct fields compare
//! lexicographically, ignored fields carry no weight, and enum variants
//! order by declaration index.

use std::cmp::Ordering;

use derivative::ast::{Input, PathSeg, RawBody, RawDecl, RawField, RawVariant, Style, TypeNode,
    TypeRepr};
use derivative::attr::{RawLit, RawMeta, RawNested};
use derivative::bound::{GenericParam, Generics, TypeParam};
use derivative::eval::{eval_cmp, eval_eq, Instance, OrdKind, Value};

fn s(x: &str) -> String {
    x.to_string()
}

fn word(name: &str) -> RawNested {
    RawNested::Meta(RawMeta::Word { name: s(name), span: 0 })
}

fn kv(key: &str, value: &str) -> RawNested {
    RawNested::Meta(RawMeta::NameValue {
        name: s(key),
        value: RawLit::Str { value: s(value), span: 0 },
        span: 0,
    })
}

fn list(name: &str, items: Vec<RawNested>) -> RawNested {
    RawNested::Meta(RawMeta::List { name: s(name), items, span: 0 })
}

fn derivative_attr(items: Vec<RawNested>) -> Vec<RawMeta> {
    vec![RawMeta::List { name: s("derivative"), items, span: 0 }]
}

fn path_ty(name: &str) -> TypeRepr {
    TypeRepr {
        nodes: vec![TypeNode::Path {
            global: false,
            segs: vec![PathSeg { ident: s(name), args: vec![] }],
        }],
    }
}

fn phantom_ty(arg: &str) -> TypeRepr {
    TypeRepr {
        nodes: vec![
            TypeNode::Path {
                global: false,
                segs: vec![PathSeg { ident: s(arg), args: vec![] }],
            },
            TypeNode::Path {
                global: false,
                segs: vec![PathSeg { ident: s("PhantomData"), args: vec![0] }],
            },
        ],
    }
}

fn field(name: Option<&str>, attrs: Vec<RawMeta>, ty: TypeRepr) -> RawField {
    RawField { attrs, ident: name.map(s), ty, span: 0 }
}

fn no_generics() -> Generics {
    Generics { params: vec![], where_clause: vec![] }
}

fn named_struct(name: &str, attrs: Vec<RawMeta>, fields: Vec<RawField>, generics: Generics) -> Input {
    let raw = RawDecl {
        attrs,
        body: RawBody::Struct(Style::Struct, fields),
        generics,
        ident: s(name),
        span: 0,
    };
    Input::from_ast(&raw).expect("well-formed declaration")
}

fn one(v: Value) -> Instance {
    Instance { variant: 0, fields: vec![v] }
}

fn lt(input: &Input, a: &Instance, b: &Instance) -> bool {
    eval_cmp(input, a, b, OrdKind::Partial).unwrap() == Some(Ordering::Less)
}

fn le(input: &Input, a: &Instance, b: &Instance) -> bool {
    matches!(
        eval_cmp(input, a, b, OrdKind::Partial).unwrap(),
        Some(Ordering::Less) | Some(Ordering::Equal)
    )
}

fn gt(input: &Input, a: &Instance, b: &Instance) -> bool {
    eval_cmp(input, a, b, OrdKind::Partial).unwrap() == Some(Ordering::Greater)
}

fn ge(input: &Input, a: &Instance, b: &Instance) -> bool {
    matches!(
        eval_cmp(input, a, b, OrdKind::Partial).unwrap(),
        Some(Ordering::Greater) | Some(Ordering::Equal)
    )
}

#[test]
fn derive_partial_ord_main() {
    // struct Foo { foo: u8 } with PartialOrd.
    let foo = named_struct(
        "Foo",
        derivative_attr(vec![word("PartialOrd")]),
        vec![field(Some("foo"), vec![], path_ty("u8"))],
        no_generics(),
    );
    assert!(lt(&foo, &one(Value::Int(7)), &one(Value::Int(42))));
    assert!(le(&foo, &one(Value::Int(7)), &one(Value::Int(42))));
    assert!(gt(&foo, &one(Value::Int(42)), &one(Value::Int(7))));
    assert!(ge(&foo, &one(Value::Int(42)), &one(Value::Int(7))));

    // struct WithPtr<T: ?Sized> { foo: *const T } with explicitly empty bounds.
    let with_ptr = named_struct(
        "WithPtr",
        derivative_attr(vec![word("PartialEq"), word("PartialOrd")]),
        vec![field(
            Some("foo"),
            vec![
                RawMeta::List {
                    name: s("derivative"),
                    items: vec![list("PartialEq", vec![kv("bound", "")])],
                    span: 0,
                },
                RawMeta::List {
                    name: s("derivative"),
                    items: vec![list("PartialOrd", vec![kv("bound", "")])],
                    span: 0,
                },
            ],
            TypeRepr {
                nodes: vec![
                    TypeNode::Path {
                        global: false,
                        segs: vec![PathSeg { ident: s("T"), args: vec![] }],
                    },
                    TypeNode::Ptr { inner: 0 },
                ],
            },
        )],
        Generics {
            params: vec![GenericParam::Type(TypeParam { ident: s("T"), default: None })],
            where_clause: vec![],
        },
    );
    let ptr1 = one(Value::Int(1));
    let ptr2 = one(Value::Int(2));
    assert!(eval_eq(&with_ptr, &ptr1, &ptr1).unwrap());
    assert!(!eval_eq(&with_ptr, &ptr1, &ptr2).unwrap());

    // struct Empty;
    let empty = named_struct(
        "Empty",
        derivative_attr(vec![word("PartialOrd")]),
        vec![],
        no_generics(),
    );
    let e = Instance { variant: 0, fields: vec![] };
    assert!(le(&empty, &e, &e));
    assert!(ge(&empty, &e, &e));

    // struct AllIgnored { foo: u8 # ignored }.
    let all_ignored = named_struct(
        "AllIgnored",
        derivative_attr(vec![word("PartialOrd")]),
        vec![field(
            Some("foo"),
            derivative_attr(vec![kv("PartialOrd", "ignore")]),
            path_ty("u8"),
        )],
        no_generics(),
    );
    assert!(le(&all_ignored, &one(Value::Int(0)), &one(Value::Int(42))));
    assert!(ge(&all_ignored, &one(Value::Int(0)), &one(Value::Int(42))));

    // struct OneIgnored { foo: u8 # ignored, bar: u8 }.
    let one_ignored = named_struct(
        "OneIgnored",
        derivative_attr(vec![word("PartialOrd")]),
        vec![
            field(
                Some("foo"),
                derivative_attr(vec![kv("PartialOrd", "ignore")]),
                path_ty("u8"),
            ),
            field(Some("bar"), vec![], path_ty("u8")),
        ],
        no_generics(),
    );
    let pair = |a: i64, b: i64| Instance {
        variant: 0,
        fields: vec![Value::Int(a), Value::Int(b)],
    };
    assert!(le(&one_ignored, &pair(0, 6), &pair(42, 6)));
    assert!(ge(&one_ignored, &pair(0, 6), &pair(42, 6)));
    assert!(ge(&one_ignored, &pair(0, 7), &pair(42, 6)));

    // enum Option<T> { None, Some(T) } opted into enum ordering.
    let opt = {
        let raw = RawDecl {
            attrs: derivative_attr(vec![kv("PartialOrd", "feature_allow_slow_enum")]),
            body: RawBody::Enum(vec![
                RawVariant { attrs: vec![], ident: s("None"), style: Style::Unit, fields: vec![] },
                RawVariant {
                    attrs: vec![],
                    ident: s("Some"),
                    style: Style::Tuple,
                    fields: vec![field(None, vec![], path_ty("T"))],
                },
            ]),
            generics: Generics {
                params: vec![GenericParam::Type(TypeParam { ident: s("T"), default: None })],
                where_clause: vec![],
            },
            ident: s("Option"),
            span: 0,
        };
        Input::from_ast(&raw).expect("well-formed declaration")
    };
    let none_v = Instance { variant: 0, fields: vec![] };
    let some = |n: i64| Instance { variant: 1, fields: vec![Value::Int(n)] };
    assert!(le(&opt, &some(42), &some(42)));
    assert!(ge(&opt, &some(42), &some(42)));
    assert!(le(&opt, &some(0), &some(42)));
    assert!(ge(&opt, &some(42), &none_v));
    assert!(le(&opt, &none_v, &some(42)));
    assert!(le(&opt, &none_v, &none_v));
    assert!(ge(&opt, &none_v, &none_v));

    // struct GenericIgnore<T> { f: u32, t: PhantomData<T> # ignored }.
    let generic_ignore = named_struct(
        "GenericIgnore",
        derivative_attr(vec![word("PartialEq"), word("PartialOrd")]),
        vec![
            field(Some("f"), vec![], path_ty("u32")),
            field(
                Some("t"),
                vec![
                    RawMeta::List {
                        name: s("derivative"),
                        items: vec![kv("PartialEq", "ignore")],
                        span: 0,
                    },
                    RawMeta::List {
                        name: s("derivative"),
                        items: vec![kv("PartialOrd", "ignore")],
                        span: 0,
                    },
                ],
                phantom_ty("NonPartialOrd"),
            ),
        ],
        Generics {
            params: vec![GenericParam::Type(TypeParam { ident: s("T"), default: None })],
            where_clause: vec![],
        },
    );
    let gi = || Instance { variant: 0, fields: vec![Value::Int(123), Value::Marker] };
    assert!(le(&generic_ignore, &gi(), &gi()));
}
