//! The error taxonomy of the directive mini-language.

use derivative::attr::{parse_constraint_list, parse_range, ConfigError, Input, RawLit, RawMeta,
    RawNested};

fn s(x: &str) -> String {
    x.to_string()
}

fn word(name: &str) -> RawNested {
    RawNested::Meta(RawMeta::Word { name: s(name), span: 0 })
}

fn kv(key: &str, value: &str) -> RawNested {
    RawNested::Meta(RawMeta::NameValue {
        name: s(key),
        value: RawLit::Str { value: s(value), span: 0 },
        span: 0,
    })
}

fn list(name: &str, items: Vec<RawNested>) -> RawNested {
    RawNested::Meta(RawMeta::List { name: s(name), items, span: 0 })
}

fn derivative_attr(items: Vec<RawNested>) -> Vec<RawMeta> {
    vec![RawMeta::List { name: s("derivative"), items, span: 5 }]
}

#[test]
fn unknown_trait() {
    let r = Input::from_ast(&derivative_attr(vec![word("Cloney")]));
    match r {
        Err(ConfigError::UnknownTrait { name, .. }) => assert_eq!(name, "Cloney"),
        _ => panic!("expected an unknown-trait error"),
    }
}

#[test]
fn unknown_directive() {
    let r = Input::from_ast(&derivative_attr(vec![list("Clone", vec![kv("frobnicate", "1")])]));
    match r {
        Err(ConfigError::UnknownDirective { trait_name, key, .. }) => {
            assert_eq!(trait_name, "Clone");
            assert_eq!(key, "frobnicate");
        },
        _ => panic!("expected an unknown-directive error"),
    }
}

#[test]
fn invalid_boolean_value() {
    let r = Input::from_ast(&derivative_attr(vec![list(
        "Debug",
        vec![kv("transparent", "maybe")],
    )]));
    match r {
        Err(ConfigError::InvalidBooleanValue { key, value, .. }) => {
            assert_eq!(key, "transparent");
            assert_eq!(value, "maybe");
        },
        _ => panic!("expected an invalid-boolean error"),
    }
}

#[test]
fn invalid_bound() {
    // A bound must be a list of `param: bounds` constraints.
    let r = Input::from_ast(&derivative_attr(vec![list("Clone", vec![kv("bound", "T Clone")])]));
    assert!(matches!(r, Err(ConfigError::InvalidBound { .. })));
    assert!(parse_constraint_list("T Clone").is_none());
    assert!(parse_constraint_list("T: Clone,").is_none());
    // The empty string means "no constraints needed".
    assert_eq!(parse_constraint_list("").unwrap().len(), 0);
    let ps = parse_constraint_list("T: Clone, U: Debug + Default").unwrap();
    assert_eq!(ps.len(), 2);
    assert_eq!(ps[0].param, "T");
    assert_eq!(ps[0].bounds, "Clone");
    assert_eq!(ps[1].param, "U");
    assert_eq!(ps[1].bounds, "Debug + Default");
}

#[test]
fn invalid_range() {
    let r = Input::from_ast(&derivative_attr(vec![list("Debug", vec![kv("range", "x..y")])]));
    // `range` is only recognized at field granularity, so parse one
    // there.
    assert!(matches!(r, Err(ConfigError::UnknownDirective { .. })));
    let f = derivative::attr::Field::from_ast(&derivative_attr(vec![list(
        "Debug",
        vec![kv("range", "x..y")],
    )]));
    assert!(matches!(f, Err(ConfigError::InvalidRange { .. })));
    assert_eq!(parse_range("3..4"), Some((3, 4)));
    assert_eq!(parse_range(".."), Some((0, 0)));
    assert_eq!(parse_range("17"), None);
}

#[test]
fn expected_meta_item() {
    let attrs = vec![RawMeta::List {
        name: s("derivative"),
        items: vec![RawNested::Lit(RawLit::Str { value: s("Debug"), span: 9 })],
        span: 9,
    }];
    assert!(matches!(
        Input::from_ast(&attrs),
        Err(ConfigError::ExpectedMetaItem { span: 9 })
    ));
}

#[test]
fn expected_named_value() {
    // A parenthesized list entry must be of the `key = "value"` form.
    let r = Input::from_ast(&derivative_attr(vec![list("Debug", vec![word("transparent")])]));
    assert!(matches!(r, Err(ConfigError::ExpectedNamedValue { .. })));
}

#[test]
fn expected_string_literal() {
    let attrs = vec![RawMeta::List {
        name: s("derivative"),
        items: vec![RawNested::Meta(RawMeta::NameValue {
            name: s("Debug"),
            value: RawLit::Other { span: 2 },
            span: 2,
        })],
        span: 2,
    }];
    match Input::from_ast(&attrs) {
        Err(ConfigError::ExpectedStringLiteral { key, .. }) => assert_eq!(key, "Debug"),
        _ => panic!("expected a string-literal error"),
    }
}

#[test]
fn non_derivative_attributes_are_ignored() {
    let attrs = vec![
        RawMeta::Word { name: s("derive"), span: 0 },
        RawMeta::List { name: s("serde"), items: vec![word("whatever")], span: 0 },
        RawMeta::List { name: s("derivative"), items: vec![word("Clone")], span: 0 },
    ];
    let input = Input::from_ast(&attrs).unwrap();
    assert!(input.clone.is_some());
    assert!(input.debug.is_none());
}

#[test]
fn boolean_shorthand_and_accumulation() {
    // `Clone = "clone_from"` is shorthand for `Clone(clone_from = "true")`,
    // and a later annotation refines the same section.
    let attrs = vec![
        RawMeta::List { name: s("derivative"), items: vec![word("Clone")], span: 0 },
        RawMeta::List {
            name: s("derivative"),
            items: vec![kv("Clone", "clone_from")],
            span: 0,
        },
    ];
    let input = Input::from_ast(&attrs).unwrap();
    assert!(input.clone_from());
    let off = Input::from_ast(&derivative_attr(vec![list(
        "Clone",
        vec![kv("clone_from", "false")],
    )]))
    .unwrap();
    assert!(!off.clone_from());
}
