//! The equality and ordering emitters. Equality compares the discriminants
//! first and then folds a conjunction over the non-ignored fields of the
//! matched variant pair. Ordering compares the variant tags by declaration
//! order and, only within one variant, builds the lexicographic tie-break
//! as a right-to-left fold: each field wraps the fold of the later fields
//! in a match that keeps it only when this field compares `Equal`, so the
//! first differing field decides and later comparators are never invoked.

use vstd::prelude::*;

use crate::ast;
use crate::ast::Body;
use crate::attr;
use crate::attr::{ConfigError, ConfigErrorV, TraitKind};
use crate::matcher::{spec_arm_fields, spec_binding_ident, spec_n_arms, BindingStyle, Matcher};
use crate::utils::{emit_impl, spec_impl_text};

verus! {

/// Whether a field takes part in bound inference for `PartialEq`.
pub fn needs_partial_eq_bound(attrs: &attr::Field) -> (r: bool)
    ensures
        r == attr::spec_needs(attrs@, TraitKind::PartialEq),
{
    attr::needs_bound(attrs, TraitKind::PartialEq)
}

/// Whether a field takes part in bound inference for `PartialOrd`.
pub fn needs_partial_ord_bound(attrs: &attr::Field) -> (r: bool)
    ensures
        r == attr::spec_needs(attrs@, TraitKind::PartialOrd),
{
    attr::needs_bound(attrs, TraitKind::PartialOrd)
}

/// Whether a field takes part in bound inference for `Ord`.
pub fn needs_ord_bound(attrs: &attr::Field) -> (r: bool)
    ensures
        r == attr::spec_needs(attrs@, TraitKind::Ord),
{
    attr::needs_bound(attrs, TraitKind::Ord)
}

/// Whether a field takes part in bound inference for `Eq`.
pub fn needs_eq_bound(attrs: &attr::Field) -> (r: bool)
    ensures
        r == attr::spec_needs(attrs@, TraitKind::Eq),
{
    attr::needs_bound(attrs, TraitKind::Eq)
}

/// The path of the `Eq` trait.
pub fn eq_trait_path() -> (r: &'static str)
    ensures
        r@ == "::std::cmp::Eq"@,
{
    "::std::cmp::Eq"
}

/// The path of the `PartialEq` trait.
pub fn partial_eq_trait_path() -> (r: &'static str)
    ensures
        r@ == "::std::cmp::PartialEq"@,
{
    "::std::cmp::PartialEq"
}

/// The path of the `PartialOrd` trait.
pub fn partial_ord_trait_path() -> (r: &'static str)
    ensures
        r@ == "::std::cmp::PartialOrd"@,
{
    "::std::cmp::PartialOrd"
}

/// The path of the `Ord` trait.
pub fn ord_trait_path() -> (r: &'static str)
    ensures
        r@ == "::std::cmp::Ord"@,
{
    "::std::cmp::Ord"
}

/// The fields of match arm `k`.
fn arm_fields<'a>(input: &'a ast::Input, k: usize) -> (r: &'a Vec<ast::Field>)
    requires
        0 <= k < spec_n_arms(input.body),
    ensures
        r@ == spec_arm_fields(*input, k as int),
{
    match &input.body {
        Body::Enum(vs) => &vs[k].fields,
        Body::Struct(_, fs) => fs,
    }
}

/// Derives `Eq`: a marker implementation with an empty body.
pub open spec fn spec_derive_eq(input: ast::Input) -> Seq<char> {
    spec_impl_text(input, TraitKind::Eq, "::std::cmp::Eq"@, Seq::empty())
}

/// Derives `Eq` for `input`.
pub fn derive_eq(input: &ast::Input) -> (r: String)
    ensures
        r@ == spec_derive_eq(*input),
{
    let r = emit_impl(input, TraitKind::Eq, eq_trait_path(), String::new());
    assert(r@ =~= spec_derive_eq(*input));
    r
}

// ===========================================================================
// Equality.
// ===========================================================================

/// The conjunction terms over the fields from `i` on: nothing for an
/// ignored field, a call of the custom comparison function when one is
/// given, the trait's own `==` otherwise.
pub open spec fn spec_eq_terms(fields: Seq<ast::Field>, i: int) -> Seq<char>
    decreases fields.len() - i,
{
    if i < 0 || i >= fields.len() {
        Seq::empty()
    } else {
        (if fields[i].attrs@.partial_eq.ignore {
            Seq::<char>::empty()
        } else {
            match fields[i].attrs@.partial_eq.with {
                Some(p) => " && "@ + p + " ( "@ + spec_binding_ident("__self"@, i) + " , "@
                    + spec_binding_ident("__other"@, i) + " )"@,
                None => " && "@ + spec_binding_ident("__self"@, i) + " == "@ + spec_binding_ident(
                    "__other"@,
                    i,
                ),
            }
        }) + spec_eq_terms(fields, i + 1)
    }
}

fn eq_terms(fields: &Vec<ast::Field>, i: usize) -> (r: String)
    requires
        i <= fields@.len(),
    ensures
        r@ == spec_eq_terms(fields@, i as int),
    decreases fields@.len() - i,
{
    if i == fields.len() {
        let r = String::new();
        assert(r@ =~= spec_eq_terms(fields@, i as int));
        return r;
    }
    let mut out = String::new();
    if !fields[i].attrs.partial_eq.ignore {
        match &fields[i].attrs.partial_eq.with {
            Some(p) => {
                out.append(" && ");
                out.append(p.as_str());
                out.append(" ( ");
                let bs = crate::matcher::binding_ident("__self", i);
                out.append(bs.as_str());
                out.append(" , ");
                let bo = crate::matcher::binding_ident("__other", i);
                out.append(bo.as_str());
                out.append(" )");
            },
            None => {
                out.append(" && ");
                let bs = crate::matcher::binding_ident("__self", i);
                out.append(bs.as_str());
                out.append(" == ");
                let bo = crate::matcher::binding_ident("__other", i);
                out.append(bo.as_str());
            },
        }
    }
    let t = eq_terms(fields, i + 1);
    out.append(t.as_str());
    assert(out@ =~= spec_eq_terms(fields@, i as int));
    out
}

/// The equality body of the arm pairing variant `k` with itself: `true`
/// and one conjunction term per non-ignored field.
pub open spec fn spec_eq_arm_body(input: ast::Input, k: int) -> Seq<char> {
    "true"@ + spec_eq_terms(spec_arm_fields(input, k), 0)
}

/// The bodies of all equality arms.
pub open spec fn spec_eq_bodies(input: ast::Input) -> Seq<Seq<char>> {
    Seq::new(spec_n_arms(input.body) as nat, |k: int| spec_eq_arm_body(input, k))
}

/// The discriminant fast path: an explicit comparison of the two
/// discriminants, short-circuited before any field comparison; `true` for
/// a struct, which has a single implicit variant.
pub open spec fn spec_eq_disc(input: ast::Input) -> Seq<char> {
    match input.body {
        Body::Enum(..) =>
            "( ::std::mem::discriminant ( & * self ) == ::std::mem::discriminant ( & * other ) )"@,
        Body::Struct(..) => "true"@,
    }
}

/// The whole generated `eq` body: the discriminant comparison, then, for
/// an enum with field-carrying variants or a struct, the dual-instance
/// match whose catch-all arm is unreachable because the discriminant
/// check already ran. An all-unit enum takes the discriminant-only fast
/// path.
pub open spec fn spec_partial_eq_body(input: ast::Input) -> Seq<char> {
    let match_fields: Seq<char> = if ast::spec_is_trivial_enum(input.body) {
        "true"@
    } else {
        "match ( & * self , & * other ) { "@ + Matcher::spec_build_2_arms(
            input,
            "__self"@,
            "__other"@,
            "ref "@,
            spec_eq_bodies(input),
            0,
            Seq::empty(),
        ) + "_ => unreachable ! ( ) , }"@
    };
    "fn eq ( & self , other : & Self ) -> bool { "@ + spec_eq_disc(input) + " && "@ + match_fields
        + " }"@
}

/// The full generated `PartialEq` implementation, or the opt-in error: an
/// enum request without `feature_allow_slow_enum` is a configuration
/// error and emits nothing.
pub open spec fn spec_derive_partial_eq(input: ast::Input) -> Result<Seq<char>, ConfigErrorV> {
    if input.body is Enum && !attr::sec_flag(input.attrs@.partial_eq) {
        Err(
            ConfigErrorV::EnumNotOptedIn { trait_name: "PartialEq"@, span: input.span as int },
        )
    } else {
        Ok(
            spec_impl_text(
                input,
                TraitKind::PartialEq,
                "::std::cmp::PartialEq"@,
                spec_partial_eq_body(input),
            ),
        )
    }
}

fn arm_bodies_eq(input: &ast::Input) -> (r: Vec<String>)
    ensures
        r@.len() == spec_n_arms(input.body),
        r@.map_values(|s: String| s@) == spec_eq_bodies(*input),
{
    let n: usize = match &input.body {
        Body::Enum(vs) => vs.len(),
        Body::Struct(..) => 1,
    };
    let mut out: Vec<String> = Vec::new();
    let mut k: usize = 0;
    while k < n
        invariant
            k <= n,
            n == spec_n_arms(input.body),
            out@.len() == k,
            forall|j: int| 0 <= j < k ==> (#[trigger] out@[j])@ == spec_eq_arm_body(*input, j),
        decreases n - k,
    {
        let fields = arm_fields(input, k);
        let mut body = String::from_str("true");
        let t = eq_terms(fields, 0);
        body.append(t.as_str());
        assert(body@ =~= spec_eq_arm_body(*input, k as int));
        out.push(body);
        k += 1;
    }
    assert(out@.map_values(|s: String| s@) =~= spec_eq_bodies(*input));
    out
}

/// Derives `PartialEq` for `input`.
pub fn derive_partial_eq(input: &ast::Input) -> (r: Result<String, ConfigError>)
    ensures
        match r {
            Ok(s) => spec_derive_partial_eq(*input) == Ok::<Seq<char>, ConfigErrorV>(s@),
            Err(e) => spec_derive_partial_eq(*input) == Err::<Seq<char>, ConfigErrorV>(e@),
        },
{
    let is_enum = matches!(&input.body, Body::Enum(..));
    if is_enum && !input.attrs.partial_eq_on_enum() {
        return Err(
            ConfigError::EnumNotOptedIn {
                trait_name: String::from_str("PartialEq"),
                span: input.span,
            },
        );
    }
    let disc: &'static str = if is_enum {
        "( ::std::mem::discriminant ( & * self ) == ::std::mem::discriminant ( & * other ) )"
    } else {
        "true"
    };
    let mut body = String::from_str("fn eq ( & self , other : & Self ) -> bool { ");
    body.append(disc);
    body.append(" && ");
    if input.is_trivial_enum() {
        body.append("true");
    } else {
        let bodies = arm_bodies_eq(input);
        let arms = Matcher::new(BindingStyle::Ref).build_2_arms(input, "__self", "__other",
            &bodies);
        body.append("match ( & * self , & * other ) { ");
        body.append(arms.as_str());
        body.append("_ => unreachable ! ( ) , }");
    }
    body.append(" }");
    assert(body@ =~= spec_partial_eq_body(*input));
    let r = emit_impl(input, TraitKind::PartialEq, partial_eq_trait_path(), body);
    Ok(r)
}

// ===========================================================================
// Ordering.
// ===========================================================================

/// The right-to-left tie-break fold over the fields from `i` on, for
/// `partial_cmp`: the fold of the later fields is kept only when this
/// field's comparison is `Some(Equal)`; any other outcome short-circuits.
pub open spec fn spec_pord_fold(fields: Seq<ast::Field>, i: int) -> Seq<char>
    decreases fields.len() - i,
{
    if i < 0 || i >= fields.len() {
        "::std::option::Option::Some ( ::std::cmp::Ordering::Equal )"@
    } else if fields[i].attrs@.partial_ord.ignore {
        spec_pord_fold(fields, i + 1)
    } else {
        let cmp_fn = match fields[i].attrs@.partial_ord.with {
            Some(p) => p,
            None => "::std::cmp::PartialOrd::partial_cmp"@,
        };
        "match "@ + cmp_fn + " ( & ( * "@ + spec_binding_ident("__self"@, i) + " ) , & ( * "@
            + spec_binding_ident("__other"@, i)
            + " ) ) { ::std::option::Option::Some ( ::std::cmp::Ordering::Equal ) => "@
            + spec_pord_fold(fields, i + 1)
            + " , __derive_ordering_other => __derive_ordering_other , }"@
    }
}

/// The same fold for `cmp`, over the `Ord` configuration.
pub open spec fn spec_ord_fold(fields: Seq<ast::Field>, i: int) -> Seq<char>
    decreases fields.len() - i,
{
    if i < 0 || i >= fields.len() {
        "::std::cmp::Ordering::Equal"@
    } else if fields[i].attrs@.ord.ignore {
        spec_ord_fold(fields, i + 1)
    } else {
        let cmp_fn = match fields[i].attrs@.ord.with {
            Some(p) => p,
            None => "::std::cmp::Ord::cmp"@,
        };
        "match "@ + cmp_fn + " ( & ( * "@ + spec_binding_ident("__self"@, i) + " ) , & ( * "@
            + spec_binding_ident("__other"@, i) + " ) ) { ::std::cmp::Ordering::Equal => "@
            + spec_ord_fold(fields, i + 1)
            + " , __derive_ordering_other => __derive_ordering_other , }"@
    }
}

fn pord_fold(fields: &Vec<ast::Field>, i: usize) -> (r: String)
    requires
        i <= fields@.len(),
    ensures
        r@ == spec_pord_fold(fields@, i as int),
    decreases fields@.len() - i,
{
    if i == fields.len() {
        return String::from_str("::std::option::Option::Some ( ::std::cmp::Ordering::Equal )");
    }
    if fields[i].attrs.partial_ord.ignore {
        return pord_fold(fields, i + 1);
    }
    let mut out = String::from_str("match ");
    match &fields[i].attrs.partial_ord.with {
        Some(p) => out.append(p.as_str()),
        None => out.append("::std::cmp::PartialOrd::partial_cmp"),
    }
    out.append(" ( & ( * ");
    let bs = crate::matcher::binding_ident("__self", i);
    out.append(bs.as_str());
    out.append(" ) , & ( * ");
    let bo = crate::matcher::binding_ident("__other", i);
    out.append(bo.as_str());
    out.append(" ) ) { ::std::option::Option::Some ( ::std::cmp::Ordering::Equal ) => ");
    let inner = pord_fold(fields, i + 1);
    out.append(inner.as_str());
    out.append(" , __derive_ordering_other => __derive_ordering_other , }");
    assert(out@ =~= spec_pord_fold(fields@, i as int));
    out
}

fn ord_fold(fields: &Vec<ast::Field>, i: usize) -> (r: String)
    requires
        i <= fields@.len(),
    ensures
        r@ == spec_ord_fold(fields@, i as int),
    decreases fields@.len() - i,
{
    if i == fields.len() {
        return String::from_str("::std::cmp::Ordering::Equal");
    }
    if fields[i].attrs.ord.ignore {
        return ord_fold(fields, i + 1);
    }
    let mut out = String::from_str("match ");
    match &fields[i].attrs.ord.with {
        Some(p) => out.append(p.as_str()),
        None => out.append("::std::cmp::Ord::cmp"),
    }
    out.append(" ( & ( * ");
    let bs = crate::matcher::binding_ident("__self", i);
    out.append(bs.as_str());
    out.append(" ) , & ( * ");
    let bo = crate::matcher::binding_ident("__other", i);
    out.append(bo.as_str());
    out.append(" ) ) { ::std::cmp::Ordering::Equal => ");
    let inner = ord_fold(fields, i + 1);
    out.append(inner.as_str());
    out.append(" , __derive_ordering_other => __derive_ordering_other , }");
    assert(out@ =~= spec_ord_fold(fields@, i as int));
    out
}

/// The body of the inner arm pairing outer variant `n` with inner
/// variant `m`: the tag ordinals decide unless they are equal, and only
/// then does the field tie-break run.
pub open spec fn spec_pord_pair_body(input: ast::Input, n: int, m: int) -> Seq<char> {
    if n < m {
        "::std::option::Option::Some ( ::std::cmp::Ordering::Less )"@
    } else if n > m {
        "::std::option::Option::Some ( ::std::cmp::Ordering::Greater )"@
    } else {
        spec_pord_fold(spec_arm_fields(input, n), 0)
    }
}

/// The same pairing for `cmp`.
pub open spec fn spec_ord_pair_body(input: ast::Input, n: int, m: int) -> Seq<char> {
    if n < m {
        "::std::cmp::Ordering::Less"@
    } else if n > m {
        "::std::cmp::Ordering::Greater"@
    } else {
        spec_ord_fold(spec_arm_fields(input, n), 0)
    }
}

/// The outer arm body for variant `n`: a full match over the other
/// instance.
pub open spec fn spec_pord_outer_body(input: ast::Input, n: int) -> Seq<char> {
    "match * other { "@ + Matcher::spec_build_arms(
        input,
        "__other"@,
        "ref "@,
        Seq::new(spec_n_arms(input.body) as nat, |m: int| spec_pord_pair_body(input, n, m)),
        0,
        Seq::empty(),
    ) + "}"@
}

/// The same outer body for `cmp`.
pub open spec fn spec_ord_outer_body(input: ast::Input, n: int) -> Seq<char> {
    "match * other { "@ + Matcher::spec_build_arms(
        input,
        "__other"@,
        "ref "@,
        Seq::new(spec_n_arms(input.body) as nat, |m: int| spec_ord_pair_body(input, n, m)),
        0,
        Seq::empty(),
    ) + "}"@
}

/// The whole generated `partial_cmp` body.
pub open spec fn spec_partial_ord_body(input: ast::Input) -> Seq<char> {
    "fn partial_cmp ( & self , other : & Self ) -> ::std::option::Option < ::std::cmp::Ordering > { match * self { "@
        + Matcher::spec_build_arms(
        input,
        "__self"@,
        "ref "@,
        Seq::new(spec_n_arms(input.body) as nat, |n: int| spec_pord_outer_body(input, n)),
        0,
        Seq::empty(),
    ) + "} }"@
}

/// The whole generated `cmp` body.
pub open spec fn spec_total_ord_body(input: ast::Input) -> Seq<char> {
    "fn cmp ( & self , other : & Self ) -> ::std::cmp::Ordering { match * self { "@
        + Matcher::spec_build_arms(
        input,
        "__self"@,
        "ref "@,
        Seq::new(spec_n_arms(input.body) as nat, |n: int| spec_ord_outer_body(input, n)),
        0,
        Seq::empty(),
    ) + "} }"@
}

/// The full generated `PartialOrd` implementation, or the opt-in error.
pub open spec fn spec_derive_partial_ord(input: ast::Input) -> Result<Seq<char>, ConfigErrorV> {
    if input.body is Enum && !attr::sec_flag(input.attrs@.partial_ord) {
        Err(
            ConfigErrorV::EnumNotOptedIn { trait_name: "PartialOrd"@, span: input.span as int },
        )
    } else {
        Ok(
            spec_impl_text(
                input,
                TraitKind::PartialOrd,
                "::std::cmp::PartialOrd"@,
                spec_partial_ord_body(input),
            ),
        )
    }
}

/// The full generated `Ord` implementation, or the opt-in error.
pub open spec fn spec_derive_ord(input: ast::Input) -> Result<Seq<char>, ConfigErrorV> {
    if input.body is Enum && !attr::sec_flag(input.attrs@.ord) {
        Err(ConfigErrorV::EnumNotOptedIn { trait_name: "Ord"@, span: input.span as int })
    } else {
        Ok(
            spec_impl_text(
                input,
                TraitKind::Ord,
                "::std::cmp::Ord"@,
                spec_total_ord_body(input),
            ),
        )
    }
}

fn n_arms(input: &ast::Input) -> (r: usize)
    ensures
        r == spec_n_arms(input.body),
{
    match &input.body {
        Body::Enum(vs) => vs.len(),
        Body::Struct(..) => 1,
    }
}

fn outer_bodies_ord(input: &ast::Input, partial: bool) -> (r: Vec<String>)
    ensures
        r@.len() == spec_n_arms(input.body),
        partial ==> r@.map_values(|s: String| s@) == Seq::new(
            spec_n_arms(input.body) as nat,
            |n: int| spec_pord_outer_body(*input, n),
        ),
        !partial ==> r@.map_values(|s: String| s@) == Seq::new(
            spec_n_arms(input.body) as nat,
            |n: int| spec_ord_outer_body(*input, n),
        ),
{
    let n = n_arms(input);
    let mut out: Vec<String> = Vec::new();
    let mut k: usize = 0;
    while k < n
        invariant
            k <= n,
            n == spec_n_arms(input.body),
            out@.len() == k,
            forall|j: int|
                0 <= j < k ==> (#[trigger] out@[j])@ == (if partial {
                    spec_pord_outer_body(*input, j)
                } else {
                    spec_ord_outer_body(*input, j)
                }),
        decreases n - k,
    {
        let mut inner: Vec<String> = Vec::new();
        let mut m: usize = 0;
        while m < n
            invariant
                m <= n,
                n == spec_n_arms(input.body),
                k < n,
                inner@.len() == m,
                forall|j: int|
                    0 <= j < m ==> (#[trigger] inner@[j])@ == (if partial {
                        spec_pord_pair_body(*input, k as int, j)
                    } else {
                        spec_ord_pair_body(*input, k as int, j)
                    }),
            decreases n - m,
        {
            let b: String = if k < m {
                if partial {
                    String::from_str("::std::option::Option::Some ( ::std::cmp::Ordering::Less )")
                } else {
                    String::from_str("::std::cmp::Ordering::Less")
                }
            } else if k > m {
                if partial {
                    String::from_str(
                        "::std::option::Option::Some ( ::std::cmp::Ordering::Greater )",
                    )
                } else {
                    String::from_str("::std::cmp::Ordering::Greater")
                }
            } else {
                let fields = arm_fields(input, k);
                if partial {
                    pord_fold(fields, 0)
                } else {
                    ord_fold(fields, 0)
                }
            };
            inner.push(b);
            m += 1;
        }
        proof {
            if partial {
                assert(inner@.map_values(|s: String| s@) =~= Seq::new(
                    spec_n_arms(input.body) as nat,
                    |j: int| spec_pord_pair_body(*input, k as int, j),
                ));
            } else {
                assert(inner@.map_values(|s: String| s@) =~= Seq::new(
                    spec_n_arms(input.body) as nat,
                    |j: int| spec_ord_pair_body(*input, k as int, j),
                ));
            }
        }
        let arms = Matcher::new(BindingStyle::Ref).build_arms(input, "__other", &inner);
        let mut body = String::from_str("match * other { ");
        body.append(arms.as_str());
        body.append("}");
        proof {
            if partial {
                assert(body@ =~= spec_pord_outer_body(*input, k as int));
            } else {
                assert(body@ =~= spec_ord_outer_body(*input, k as int));
            }
        }
        out.push(body);
        k += 1;
    }
    proof {
        if partial {
            assert(out@.map_values(|s: String| s@) =~= Seq::new(
                spec_n_arms(input.body) as nat,
                |n2: int| spec_pord_outer_body(*input, n2),
            ));
        } else {
            assert(out@.map_values(|s: String| s@) =~= Seq::new(
                spec_n_arms(input.body) as nat,
                |n2: int| spec_ord_outer_body(*input, n2),
            ));
        }
    }
    out
}

/// Derives `PartialOrd` for `input`. An enum request without the
/// `feature_allow_slow_enum` opt-in is a configuration error and emits no
/// ordering code at all.
pub fn derive_partial_ord(input: &ast::Input) -> (r: Result<String, ConfigError>)
    ensures
        match r {
            Ok(s) => spec_derive_partial_ord(*input) == Ok::<Seq<char>, ConfigErrorV>(s@),
            Err(e) => spec_derive_partial_ord(*input) == Err::<Seq<char>, ConfigErrorV>(e@),
        },
{
    let is_enum = matches!(&input.body, Body::Enum(..));
    if is_enum && !input.attrs.partial_ord_on_enum() {
        return Err(
            ConfigError::EnumNotOptedIn {
                trait_name: String::from_str("PartialOrd"),
                span: input.span,
            },
        );
    }
    let bodies = outer_bodies_ord(input, true);
    let arms = Matcher::new(BindingStyle::Ref).build_arms(input, "__self", &bodies);
    let mut body = String::from_str(
        "fn partial_cmp ( & self , other : & Self ) -> ::std::option::Option < ::std::cmp::Ordering > { match * self { ",
    );
    body.append(arms.as_str());
    body.append("} }");
    assert(body@ =~= spec_partial_ord_body(*input));
    let r = emit_impl(input, TraitKind::PartialOrd, partial_ord_trait_path(), body);
    Ok(r)
}

/// Derives `Ord` for `input`, under the same enum opt-in gate.
pub fn derive_ord(input: &ast::Input) -> (r: Result<String, ConfigError>)
    ensures
        match r {
            Ok(s) => spec_derive_ord(*input) == Ok::<Seq<char>, ConfigErrorV>(s@),
            Err(e) => spec_derive_ord(*input) == Err::<Seq<char>, ConfigErrorV>(e@),
        },
{
    let is_enum = matches!(&input.body, Body::Enum(..));
    if is_enum && !input.attrs.ord_on_enum() {
        return Err(
            ConfigError::EnumNotOptedIn {
                trait_name: String::from_str("Ord"),
                span: input.span,
            },
        );
    }
    let bodies = outer_bodies_ord(input, false);
    let arms = Matcher::new(BindingStyle::Ref).build_arms(input, "__self", &bodies);
    let mut body = String::from_str(
        "fn cmp ( & self , other : & Self ) -> ::std::cmp::Ordering { match * self { ",
    );
    body.append(arms.as_str());
    body.append("} }");
    assert(body@ =~= spec_total_ord_body(*input));
    let r = emit_impl(input, TraitKind::Ord, ord_trait_path(), body);
    Ok(r)
}

} // verus!
