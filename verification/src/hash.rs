//! The hash emitter: the discriminant is hashed unconditionally for an
//! enum, then each non-ignored field's contribution follows in declared
//! field order — hash quality depends on mixing order, so the order is
//! intentional and part of the contract.

use vstd::prelude::*;

use crate::ast;
use crate::ast::Body;
use crate::attr;
use crate::attr::TraitKind;
use crate::matcher::{spec_arm_fields, spec_binding_ident, spec_n_arms, BindingStyle, Matcher};
use crate::utils::{emit_impl, hygienic_type_parameter, spec_hygienic, spec_impl_text};

verus! {

/// Whether a field takes part in bound inference for `Hash`.
pub fn needs_hash_bound(attrs: &attr::Field) -> (r: bool)
    ensures
        r == attr::spec_needs(attrs@, TraitKind::Hash),
{
    attr::needs_bound(attrs, TraitKind::Hash)
}

/// The path of the `Hash` trait.
pub fn hash_trait_path() -> (r: &'static str)
    ensures
        r@ == "::std::hash::Hash"@,
{
    "::std::hash::Hash"
}

/// The path of the `Hasher` trait.
pub fn hasher_trait_path() -> (r: &'static str)
    ensures
        r@ == "::std::hash::Hasher"@,
{
    "::std::hash::Hasher"
}

/// The hash statements over the fields from `i` on: nothing for an
/// ignored field, a call of the custom hashing function when one is
/// given, the trait's own `hash` otherwise.
pub open spec fn spec_hash_stmts(fields: Seq<ast::Field>, i: int) -> Seq<char>
    decreases fields.len() - i,
{
    if i < 0 || i >= fields.len() {
        Seq::empty()
    } else {
        (if fields[i].attrs@.hash.ignore {
            Seq::<char>::empty()
        } else {
            match fields[i].attrs@.hash.with {
                Some(p) => p + " ( & "@ + spec_binding_ident("__arg"@, i) + " , __state ) ; "@,
                None => "::std::hash::Hash::hash ( & "@ + spec_binding_ident("__arg"@, i)
                    + " , __state ) ; "@,
            }
        }) + spec_hash_stmts(fields, i + 1)
    }
}

fn hash_stmts(fields: &Vec<ast::Field>, i: usize) -> (r: String)
    requires
        i <= fields@.len(),
    ensures
        r@ == spec_hash_stmts(fields@, i as int),
    decreases fields@.len() - i,
{
    if i == fields.len() {
        let r = String::new();
        assert(r@ =~= spec_hash_stmts(fields@, i as int));
        return r;
    }
    let mut out = String::new();
    if !fields[i].attrs.hash.ignore {
        match &fields[i].attrs.hash.with {
            Some(p) => {
                out.append(p.as_str());
                out.append(" ( & ");
                let b = crate::matcher::binding_ident("__arg", i);
                out.append(b.as_str());
                out.append(" , __state ) ; ");
            },
            None => {
                out.append("::std::hash::Hash::hash ( & ");
                let b = crate::matcher::binding_ident("__arg", i);
                out.append(b.as_str());
                out.append(" , __state ) ; ");
            },
        }
    }
    let t = hash_stmts(fields, i + 1);
    out.append(t.as_str());
    assert(out@ =~= spec_hash_stmts(fields@, i as int));
    out
}

/// The discriminant contribution: hashed first on an enum, absent on a
/// struct.
pub open spec fn spec_hash_disc(input: ast::Input) -> Seq<char> {
    match input.body {
        Body::Enum(..) =>
            "::std::hash::Hash::hash ( & ::std::mem::discriminant ( self ) , __state ) ; "@,
        Body::Struct(..) => Seq::empty(),
    }
}

/// The whole generated `hash` body, generic over a hygienic hasher
/// parameter that collides with no parameter of the item.
pub open spec fn spec_hash_body(input: ast::Input) -> Seq<char> {
    let h = spec_hygienic(input.generics@.params, "__H"@);
    "fn hash < "@ + h + " > ( & self , __state : & mut "@ + h + " ) where "@ + h
        + " : ::std::hash::Hasher { "@ + spec_hash_disc(input) + "match * self { "@
        + Matcher::spec_build_arms(
        input,
        "__arg"@,
        "ref "@,
        Seq::new(
            spec_n_arms(input.body) as nat,
            |k: int| spec_hash_stmts(spec_arm_fields(input, k), 0),
        ),
        0,
        Seq::empty(),
    ) + "} }"@
}

/// The full generated `Hash` implementation.
pub open spec fn spec_derive_hash(input: ast::Input) -> Seq<char> {
    spec_impl_text(input, TraitKind::Hash, "::std::hash::Hash"@, spec_hash_body(input))
}

/// Derives `Hash` for `input`.
pub fn derive(input: &ast::Input) -> (r: String)
    ensures
        r@ == spec_derive_hash(*input),
{
    let n: usize = match &input.body {
        Body::Enum(vs) => vs.len(),
        Body::Struct(..) => 1,
    };
    let mut bodies: Vec<String> = Vec::new();
    let mut k: usize = 0;
    while k < n
        invariant
            k <= n,
            n == spec_n_arms(input.body),
            bodies@.len() == k,
            forall|j: int|
                0 <= j < k ==> (#[trigger] bodies@[j])@ == spec_hash_stmts(
                    spec_arm_fields(*input, j),
                    0,
                ),
        decreases n - k,
    {
        let fields = match &input.body {
            Body::Enum(vs) => &vs[k].fields,
            Body::Struct(_, fs) => fs,
        };
        let b = hash_stmts(fields, 0);
        bodies.push(b);
        k += 1;
    }
    proof {
        assert(bodies@.map_values(|s: String| s@) =~= Seq::new(
            spec_n_arms(input.body) as nat,
            |j: int| spec_hash_stmts(spec_arm_fields(*input, j), 0),
        ));
    }
    let arms = Matcher::new(BindingStyle::Ref).build_arms(input, "__arg", &bodies);
    let h = hygienic_type_parameter(input, "__H");
    let mut body = String::from_str("fn hash < ");
    body.append(h.as_str());
    body.append(" > ( & self , __state : & mut ");
    body.append(h.as_str());
    body.append(" ) where ");
    body.append(h.as_str());
    body.append(" : ::std::hash::Hasher { ");
    if matches!(&input.body, Body::Enum(..)) {
        body.append("::std::hash::Hash::hash ( & ::std::mem::discriminant ( self ) , __state ) ; ");
    }
    body.append("match * self { ");
    body.append(arms.as_str());
    body.append("} }");
    assert(body@ =~= spec_hash_body(*input));
    let r = emit_impl(input, TraitKind::Hash, hash_trait_path(), body);
    r
}

} // verus!
