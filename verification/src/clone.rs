//! The clone and copy emitters. `Copy` is a marker implementation. `Clone`
//! either dereferences for a `Copy` type without type parameters or
//! reconstructs each variant field by field, honoring per-field custom
//! cloning functions; on request it also emits `clone_from`, which clones
//! field-into-field when both instances share a variant and falls back to
//! a plain clone otherwise.

use vstd::prelude::*;

use crate::ast;
use crate::ast::{Body, Style};
use crate::attr;
use crate::attr::TraitKind;
use crate::bound::{GenericParamV, Generics};
use crate::matcher::{
    spec_arm_fields, spec_arm_path, spec_arm_style, spec_binding_ident, spec_n_arms, BindingStyle,
    Matcher,
};
use crate::utils::{emit_impl, spec_impl_text};

verus! {

/// Whether a field takes part in bound inference for `Clone`.
pub fn needs_clone_bound(attrs: &attr::Field) -> (r: bool)
    ensures
        r == attr::spec_needs(attrs@, TraitKind::Clone),
{
    attr::needs_bound(attrs, TraitKind::Clone)
}

/// The path of the `Copy` trait.
pub fn copy_trait_path() -> (r: &'static str)
    ensures
        r@ == "::std::marker::Copy"@,
{
    "::std::marker::Copy"
}

/// The path of the `Clone` trait.
pub fn clone_trait_path() -> (r: &'static str)
    ensures
        r@ == "::std::clone::Clone"@,
{
    "::std::clone::Clone"
}

/// Derives `Copy`: a marker implementation with an empty body.
pub open spec fn spec_derive_copy(input: ast::Input) -> Seq<char> {
    spec_impl_text(input, TraitKind::Copy, "::std::marker::Copy"@, Seq::empty())
}

/// Derives `Copy` for `input`.
pub fn derive_copy(input: &ast::Input) -> (r: String)
    ensures
        r@ == spec_derive_copy(*input),
{
    let r = emit_impl(input, TraitKind::Copy, copy_trait_path(), String::new());
    assert(r@ =~= spec_derive_copy(*input));
    r
}

/// Whether the parameter list holds any generic type parameter.
pub open spec fn spec_has_type_params(params: Seq<GenericParamV>) -> bool {
    exists|i: int| 0 <= i < params.len() && params[i] is Type
}

fn has_type_params(g: &Generics) -> (r: bool)
    ensures
        r == spec_has_type_params(g@.params),
{
    let mut i: usize = 0;
    while i < g.params.len()
        invariant
            i <= g.params@.len(),
            forall|k: int| 0 <= k < i ==> !(g@.params[k] is Type),
        decreases g.params@.len() - i,
    {
        proof {
            assert(g@.params[i as int] == g.params@[i as int]@);
        }
        match &g.params[i] {
            crate::bound::GenericParam::Type(..) => {
                return true;
            },
            _ => {},
        }
        i += 1;
    }
    false
}

/// The reconstruction of the fields from `i` on: each field is cloned
/// through its custom cloning function when one is given, through
/// `clone` otherwise, with its name restated under a named layout.
pub open spec fn spec_clone_pieces(fields: Seq<ast::Field>, i: int, named: bool) -> Seq<char>
    decreases fields.len() - i,
{
    if i < 0 || i >= fields.len() {
        Seq::empty()
    } else {
        let cloned = match fields[i].attrs@.clone.with {
            Some(p) => p + " ( "@ + spec_binding_ident("__arg"@, i) + " )"@,
            None => spec_binding_ident("__arg"@, i) + " . clone ( )"@,
        };
        (if named {
            (match fields[i].ident {
                Some(n) => n@,
                None => Seq::empty(),
            }) + " : "@ + cloned + " , "@
        } else {
            cloned + " , "@
        }) + spec_clone_pieces(fields, i + 1, named)
    }
}

fn clone_pieces(fields: &Vec<ast::Field>, i: usize, named: bool) -> (r: String)
    requires
        i <= fields@.len(),
    ensures
        r@ == spec_clone_pieces(fields@, i as int, named),
    decreases fields@.len() - i,
{
    if i == fields.len() {
        let r = String::new();
        assert(r@ =~= spec_clone_pieces(fields@, i as int, named));
        return r;
    }
    let mut out = String::new();
    if named {
        match &fields[i].ident {
            Some(n) => out.append(n.as_str()),
            None => {},
        }
        out.append(" : ");
    }
    match &fields[i].attrs.clone.with {
        Some(p) => {
            out.append(p.as_str());
            out.append(" ( ");
            let b = crate::matcher::binding_ident("__arg", i);
            out.append(b.as_str());
            out.append(" )");
        },
        None => {
            let b = crate::matcher::binding_ident("__arg", i);
            out.append(b.as_str());
            out.append(" . clone ( )");
        },
    }
    out.append(" , ");
    let t = clone_pieces(fields, i + 1, named);
    out.append(t.as_str());
    assert(out@ =~= spec_clone_pieces(fields@, i as int, named));
    out
}

/// The clone body of arm `k`: the variant rebuilt from its cloned
/// fields.
pub open spec fn spec_clone_arm_body(input: ast::Input, k: int) -> Seq<char> {
    let path = spec_arm_path(input, k);
    let fields = spec_arm_fields(input, k);
    match spec_arm_style(input, k) {
        Style::Struct => path + " { "@ + spec_clone_pieces(fields, 0, true) + "}"@,
        Style::Tuple => path + " ( "@ + spec_clone_pieces(fields, 0, false) + ")"@,
        Style::Unit => path,
    }
}

/// The `clone_from` pieces of the fields from `i` on.
pub open spec fn spec_clone_from_pieces(fields: Seq<ast::Field>, i: int) -> Seq<char>
    decreases fields.len() - i,
{
    if i < 0 || i >= fields.len() {
        Seq::empty()
    } else {
        spec_binding_ident("__arg"@, i) + " . clone_from ( "@ + spec_binding_ident("__other"@, i)
            + " ) ; "@ + spec_clone_from_pieces(fields, i + 1)
    }
}

fn clone_from_pieces(fields: &Vec<ast::Field>, i: usize) -> (r: String)
    requires
        i <= fields@.len(),
    ensures
        r@ == spec_clone_from_pieces(fields@, i as int),
    decreases fields@.len() - i,
{
    if i == fields.len() {
        let r = String::new();
        assert(r@ =~= spec_clone_from_pieces(fields@, i as int));
        return r;
    }
    let mut out = String::new();
    let b = crate::matcher::binding_ident("__arg", i);
    out.append(b.as_str());
    out.append(" . clone_from ( ");
    let o = crate::matcher::binding_ident("__other", i);
    out.append(o.as_str());
    out.append(" ) ; ");
    let t = clone_from_pieces(fields, i + 1);
    out.append(t.as_str());
    assert(out@ =~= spec_clone_from_pieces(fields@, i as int));
    out
}

/// The inner `clone_from` arm body pairing outer variant `k` with inner
/// variant `m`: only matching variants clone field into field and
/// return; a mismatched pair leaves the fallback to run.
pub open spec fn spec_clone_from_pair_body(input: ast::Input, k: int, m: int) -> Seq<char> {
    if k == m {
        spec_clone_from_pieces(spec_arm_fields(input, k), 0) + "return ; "@
    } else {
        Seq::empty()
    }
}

/// The outer `clone_from` arm body for variant `k`.
pub open spec fn spec_clone_from_outer_body(input: ast::Input, k: int) -> Seq<char> {
    "match * other { "@ + Matcher::spec_build_arms(
        input,
        "__other"@,
        "ref "@,
        Seq::new(spec_n_arms(input.body) as nat, |m: int| spec_clone_from_pair_body(input, k, m)),
        0,
        Seq::empty(),
    ) + "}"@
}

/// The whole generated `clone_from` item: enumerations fall back to a
/// plain clone when the two instances inhabit different variants.
pub open spec fn spec_clone_from_item(input: ast::Input) -> Seq<char> {
    let fallback: Seq<char> = match input.body {
        Body::Enum(..) => "* self = other . clone ( ) ; "@,
        Body::Struct(..) => Seq::empty(),
    };
    "fn clone_from ( & mut self , other : & Self ) { match * self { "@ + Matcher::spec_build_arms(
        input,
        "__arg"@,
        "ref mut "@,
        Seq::new(spec_n_arms(input.body) as nat, |k: int| spec_clone_from_outer_body(input, k)),
        0,
        Seq::empty(),
    ) + "} "@ + fallback + "}"@
}

/// The whole generated `Clone` body: a `Copy` type without type
/// parameters clones by dereferencing; otherwise each variant is rebuilt
/// field by field, and `clone_from` is added on request.
pub open spec fn spec_clone_body(input: ast::Input) -> Seq<char> {
    if input.attrs@.copy is Some && !spec_has_type_params(input.generics@.params) {
        "fn clone ( & self ) -> Self { * self }"@
    } else {
        "fn clone ( & self ) -> Self { match * self { "@ + Matcher::spec_build_arms(
            input,
            "__arg"@,
            "ref "@,
            Seq::new(spec_n_arms(input.body) as nat, |k: int| spec_clone_arm_body(input, k)),
            0,
            Seq::empty(),
        ) + "} }"@ + (if attr::sec_flag(input.attrs@.clone) {
            " "@ + spec_clone_from_item(input)
        } else {
            Seq::empty()
        })
    }
}

/// The full generated `Clone` implementation.
pub open spec fn spec_derive_clone(input: ast::Input) -> Seq<char> {
    spec_impl_text(input, TraitKind::Clone, "::std::clone::Clone"@, spec_clone_body(input))
}

fn n_arms(input: &ast::Input) -> (r: usize)
    ensures
        r == spec_n_arms(input.body),
{
    match &input.body {
        Body::Enum(vs) => vs.len(),
        Body::Struct(..) => 1,
    }
}

fn arm_parts<'a>(input: &'a ast::Input, k: usize) -> (r: (String, Style, &'a Vec<ast::Field>))
    requires
        0 <= k < spec_n_arms(input.body),
    ensures
        r.0@ == spec_arm_path(*input, k as int),
        r.1 == spec_arm_style(*input, k as int),
        r.2@ == spec_arm_fields(*input, k as int),
{
    match &input.body {
        Body::Enum(vs) => {
            let mut path = input.ident.clone();
            path.append(" :: ");
            path.append(vs[k].ident.as_str());
            assert(path@ =~= input.ident@ + " :: "@ + vs@[k as int].ident@);
            (path, vs[k].style, &vs[k].fields)
        },
        Body::Struct(style, fs) => (input.ident.clone(), *style, fs),
    }
}

/// Derives `Clone` for `input`.
pub fn derive_clone(input: &ast::Input) -> (r: String)
    ensures
        r@ == spec_derive_clone(*input),
{
    let trivially_copy = input.attrs.copy.is_some() && !has_type_params(&input.generics);
    let body: String = if trivially_copy {
        String::from_str("fn clone ( & self ) -> Self { * self }")
    } else {
        let n = n_arms(input);
        let mut bodies: Vec<String> = Vec::new();
        let mut k: usize = 0;
        while k < n
            invariant
                k <= n,
                n == spec_n_arms(input.body),
                bodies@.len() == k,
                forall|j: int|
                    0 <= j < k ==> (#[trigger] bodies@[j])@ == spec_clone_arm_body(*input, j),
            decreases n - k,
        {
            let (path, style, fields) = arm_parts(input, k);
            let mut b = path;
            match style {
                Style::Struct => {
                    b.append(" { ");
                    let p = clone_pieces(fields, 0, true);
                    b.append(p.as_str());
                    b.append("}");
                },
                Style::Tuple => {
                    b.append(" ( ");
                    let p = clone_pieces(fields, 0, false);
                    b.append(p.as_str());
                    b.append(")");
                },
                Style::Unit => {},
            }
            assert(b@ =~= spec_clone_arm_body(*input, k as int));
            bodies.push(b);
            k += 1;
        }
        proof {
            assert(bodies@.map_values(|s: String| s@) =~= Seq::new(
                spec_n_arms(input.body) as nat,
                |j: int| spec_clone_arm_body(*input, j),
            ));
        }
        let arms = Matcher::new(BindingStyle::Ref).build_arms(input, "__arg", &bodies);
        let mut body = String::from_str("fn clone ( & self ) -> Self { match * self { ");
        body.append(arms.as_str());
        body.append("} }");
        if input.attrs.clone_from() {
            body.append(" ");
            let cf = clone_from_item(input);
            body.append(cf.as_str());
        }
        assert(body@ =~= spec_clone_body(*input));
        body
    };
    let r = emit_impl(input, TraitKind::Clone, clone_trait_path(), body);
    r
}

fn clone_from_item(input: &ast::Input) -> (r: String)
    ensures
        r@ == spec_clone_from_item(*input),
{
    let n = n_arms(input);
    let mut outer: Vec<String> = Vec::new();
    let mut k: usize = 0;
    while k < n
        invariant
            k <= n,
            n == spec_n_arms(input.body),
            outer@.len() == k,
            forall|j: int|
                0 <= j < k ==> (#[trigger] outer@[j])@ == spec_clone_from_outer_body(*input, j),
        decreases n - k,
    {
        let mut inner: Vec<String> = Vec::new();
        let mut m: usize = 0;
        while m < n
            invariant
                m <= n,
                k < n,
                n == spec_n_arms(input.body),
                inner@.len() == m,
                forall|j: int|
                    0 <= j < m ==> (#[trigger] inner@[j])@ == spec_clone_from_pair_body(
                        *input,
                        k as int,
                        j,
                    ),
            decreases n - m,
        {
            let b: String = if k == m {
                let fields = arm_parts(input, k).2;
                let mut b = clone_from_pieces(fields, 0);
                b.append("return ; ");
                assert(b@ =~= spec_clone_from_pair_body(*input, k as int, m as int));
                b
            } else {
                let b = String::new();
                assert(b@ =~= spec_clone_from_pair_body(*input, k as int, m as int));
                b
            };
            inner.push(b);
            m += 1;
        }
        proof {
            assert(inner@.map_values(|s: String| s@) =~= Seq::new(
                spec_n_arms(input.body) as nat,
                |j: int| spec_clone_from_pair_body(*input, k as int, j),
            ));
        }
        let arms = Matcher::new(BindingStyle::Ref).build_arms(input, "__other", &inner);
        let mut b = String::from_str("match * other { ");
        b.append(arms.as_str());
        b.append("}");
        assert(b@ =~= spec_clone_from_outer_body(*input, k as int));
        outer.push(b);
        k += 1;
    }
    proof {
        assert(outer@.map_values(|s: String| s@) =~= Seq::new(
            spec_n_arms(input.body) as nat,
            |j: int| spec_clone_from_outer_body(*input, j),
        ));
    }
    let arms = Matcher::new(BindingStyle::RefMut).build_arms(input, "__arg", &outer);
    let mut out = String::from_str("fn clone_from ( & mut self , other : & Self ) { match * self { ");
    out.append(arms.as_str());
    out.append("} ");
    if matches!(&input.body, Body::Enum(..)) {
        out.append("* self = other . clone ( ) ; ");
    }
    out.append("}");
    assert(out@ =~= spec_clone_from_item(*input));
    out
}

} // verus!
