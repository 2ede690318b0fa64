//! A tuple struct around an unsized slice still gets a formatting
//! implementation emitted.

use derivative::ast::{Input, PathSeg, RawBody, RawDecl, RawField, Style, TypeNode, TypeRepr};
use derivative::attr::{RawMeta, RawNested};
use derivative::bound::{GenericParam, Generics, TypeParam};
use derivative::debug;

fn s(x: &str) -> String {
    x.to_string()
}

/// `struct Row<T>([T]);` with a Debug request.
fn row_type() -> Input {
    let raw = RawDecl {
        attrs: vec![RawMeta::List {
            name: s("derivative"),
            items: vec![RawNested::Meta(RawMeta::Word { name: s("Debug"), span: 0 })],
            span: 0,
        }],
        body: RawBody::Struct(
            Style::Tuple,
            vec![RawField {
                attrs: vec![],
                ident: None,
                ty: TypeRepr {
                    nodes: vec![
                        TypeNode::Path {
                            global: false,
                            segs: vec![PathSeg { ident: s("T"), args: vec![] }],
                        },
                        TypeNode::Slice { elem: 0 },
                    ],
                },
                span: 0,
            }],
        ),
        generics: Generics {
            params: vec![GenericParam::Type(TypeParam { ident: s("T"), default: None })],
            where_clause: vec![],
        },
        ident: s("Row"),
        span: 0,
    };
    Input::from_ast(&raw).expect("well-formed declaration")
}

fn use_row(input: &Input) -> String {
    debug::derive(input)
}

#[test]
fn rustc_issue_25394_main() {
    let _ = use_row(&row_type());
}
