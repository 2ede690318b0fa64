//! Small verified helpers shared by the whole pipeline: character-level
//! string equality, decimal rendering of integers, and the impl-generics
//! assembly used by every emitter.

use vstd::prelude::*;

use crate::ast;
use crate::attr;
use crate::attr::TraitKind;
use crate::bound::{
    spec_fields_override_preds, spec_inferred, spec_with_preds, spec_without_defaults, with_bound,
    with_where_predicates, with_where_predicates_from_fields, without_defaults, GenericParam,
    GenericParamV, Generics, GenericsV, PredV, Predicate,
};

verus! {

/// Relies on `String::push`: appends one character at the end of the string.
#[verifier::external_body]
pub fn push_char(s: &mut String, c: char)
    ensures
        final(s)@ == old(s)@.push(c),
{
    s.push(c);
}

/// Character-by-character string equality, proved against the views.
pub fn str_eq(a: &str, b: &str) -> (r: bool)
    ensures
        r <==> a@ == b@,
{
    let alen = a.unicode_len();
    let blen = b.unicode_len();
    if alen != blen {
        assert(a@ != b@) by {
            assert(a@.len() != b@.len());
        }
        return false;
    }
    let mut i: usize = 0;
    while i < alen
        invariant
            alen == a@.len(),
            blen == b@.len(),
            alen == blen,
            i <= alen,
            forall|k: int| 0 <= k < i ==> a@[k] == b@[k],
        decreases alen - i,
    {
        if a.get_char(i) != b.get_char(i) {
            return false;
        }
        i += 1;
    }
    assert(a@ =~= b@);
    true
}

/// The decimal digit character for `d`.
pub open spec fn spec_digit(d: int) -> char {
    if d == 0 {
        '0'
    } else if d == 1 {
        '1'
    } else if d == 2 {
        '2'
    } else if d == 3 {
        '3'
    } else if d == 4 {
        '4'
    } else if d == 5 {
        '5'
    } else if d == 6 {
        '6'
    } else if d == 7 {
        '7'
    } else if d == 8 {
        '8'
    } else {
        '9'
    }
}

/// The decimal digit sequence of a nonnegative integer, most significant
/// digit first.
pub open spec fn spec_dec(n: int) -> Seq<char>
    decreases n,
{
    if n < 10 {
        seq![spec_digit(n)]
    } else {
        spec_dec(n / 10).push(spec_digit(n % 10))
    }
}

fn digit_char(d: u64) -> (c: char)
    requires
        d < 10,
    ensures
        c == spec_digit(d as int),
{
    match d {
        0 => '0',
        1 => '1',
        2 => '2',
        3 => '3',
        4 => '4',
        5 => '5',
        6 => '6',
        7 => '7',
        8 => '8',
        _ => '9',
    }
}

/// Appends the decimal rendering of `n` to `out`.
pub fn append_u64(out: &mut String, n: u64)
    ensures
        final(out)@ == old(out)@ + spec_dec(n as int),
    decreases n,
{
    if n < 10 {
        push_char(out, digit_char(n));
        assert(final(out)@ =~= old(out)@ + spec_dec(n as int));
    } else {
        append_u64(out, n / 10);
        push_char(out, digit_char(n % 10));
        assert(final(out)@ =~= old(out)@ + spec_dec(n as int));
    }
}

/// Appends the decimal rendering of an index to `out`.
pub fn append_usize(out: &mut String, n: usize)
    ensures
        final(out)@ == old(out)@ + spec_dec(n as int),
{
    append_u64(out, n as u64);
}

/// The decimal rendering of `n` as a fresh string.
pub fn usize_to_string(n: usize) -> (r: String)
    ensures
        r@ == spec_dec(n as int),
{
    let mut s = String::new();
    append_usize(&mut s, n);
    assert(s@ =~= spec_dec(n as int));
    s
}

/// The rendering of a signed integer: a minus sign for negative values,
/// then the decimal digits of the magnitude.
pub open spec fn spec_dec_signed(n: int) -> Seq<char> {
    if n < 0 {
        seq!['-'] + spec_dec(-n)
    } else {
        spec_dec(n)
    }
}

/// Appends the decimal rendering of a signed integer to `out`.
pub fn append_i64(out: &mut String, n: i64)
    ensures
        final(out)@ == old(out)@ + spec_dec_signed(n as int),
{
    if n < 0 {
        push_char(out, '-');
        let m: u64 = (-(n as i128)) as u64;
        assert(m == -(n as int));
        append_u64(out, m);
        assert(final(out)@ =~= old(out)@ + spec_dec_signed(n as int));
    } else {
        append_u64(out, n as u64);
        assert(final(out)@ =~= old(out)@ + spec_dec_signed(n as int));
    }
}


// ===========================================================================
// Impl-generics assembly.
// ===========================================================================

/// One generic argument of the self type in a generated implementation
/// header: a lifetime or a bare parameter name.
pub enum GenericArg {
    Lifetime(String),
    Type(String),
}

/// The view of a [`GenericArg`].
pub enum GenericArgV {
    Lifetime(Seq<char>),
    Type(Seq<char>),
}

impl View for GenericArg {
    type V = GenericArgV;

    open spec fn view(&self) -> GenericArgV {
        match self {
            GenericArg::Lifetime(s) => GenericArgV::Lifetime(s@),
            GenericArg::Type(s) => GenericArgV::Type(s@),
        }
    }
}

/// The self-type arguments restating every generic parameter by name.
pub open spec fn spec_path_args(params: Seq<GenericParamV>) -> Seq<GenericArgV> {
    params.map_values(
        |p: GenericParamV|
            match p {
                GenericParamV::Type(t) => GenericArgV::Type(t.ident),
                GenericParamV::Lifetime(l) => GenericArgV::Lifetime(l),
                GenericParamV::Const(c) => GenericArgV::Type(c),
            },
    )
}

/// The generic parameter list of a generated implementation for `tr`:
/// parameter defaults stripped, every explicit per-field constraint
/// appended, then either the explicit type-level constraint list verbatim
/// (explicit overrides always win) or the constraints found by structural
/// inference.
pub open spec fn spec_build_generics(item: ast::Input, tr: TraitKind, path: Seq<char>) -> GenericsV {
    let g0 = spec_without_defaults(item.generics@);
    let g1 = spec_with_preds(g0, spec_fields_override_preds(ast::spec_all_fields(item.body), tr));
    match attr::spec_input_override(item.attrs@, tr) {
        Some(ps) => spec_with_preds(g1, ps),
        None => spec_with_preds(
            g1,
            spec_inferred(g1.params, ast::spec_all_fields(item.body), tr, path),
        ),
    }
}

/// Builds the generics of one generated implementation, plus the self
/// type's generic arguments.
pub fn build_generics(item: &ast::Input, trait_path: &str, tr: TraitKind) -> (r: (
    Generics,
    Vec<GenericArg>,
))
    ensures
        r.0@ == spec_build_generics(*item, tr, trait_path@),
        r.1@.map_values(|a: GenericArg| a@) == spec_path_args(
            spec_build_generics(*item, tr, trait_path@).params,
        ),
{
    let g0 = without_defaults(&item.generics);
    let g1 = with_where_predicates_from_fields(item, &g0, tr);
    let g2 = if matches!(tr, TraitKind::Default) {
        let empty: Vec<Predicate> = Vec::new();
        let g = with_where_predicates(&g1, &empty);
        proof {
            assert(crate::bound::preds_view(empty@) =~= Seq::<PredV>::empty());
        }
        g
    } else {
        match attr::input_override_bound(&item.attrs, tr) {
            Some(ps) => with_where_predicates(&g1, ps),
            None => with_bound(item, &g1, tr, trait_path),
        }
    };
    let mut args: Vec<GenericArg> = Vec::new();
    let mut i: usize = 0;
    while i < g2.params.len()
        invariant
            i <= g2.params@.len(),
            args@.len() == i,
            forall|k: int|
                0 <= k < i ==> (#[trigger] args@[k])@ == spec_path_args(g2@.params)[k],
        decreases g2.params@.len() - i,
    {
        proof {
            assert(g2@.params[i as int] == g2.params@[i as int]@);
        }
        let a = match &g2.params[i] {
            GenericParam::Type(t) => GenericArg::Type(t.ident.clone()),
            GenericParam::Lifetime(l) => GenericArg::Lifetime(l.clone()),
            GenericParam::Const(c) => GenericArg::Type(c.clone()),
        };
        args.push(a);
        i += 1;
    }
    proof {
        assert(args@.map_values(|a: GenericArg| a@) =~= spec_path_args(g2@.params));
    }
    (g2, args)
}

/// Restates a parameter list as self-type arguments.
pub fn path_args_of(params: &Vec<GenericParam>) -> (r: Vec<GenericArg>)
    ensures
        r@.map_values(|a: GenericArg| a@) == spec_path_args(
            params@.map_values(|p: GenericParam| p@),
        ),
{
    let mut args: Vec<GenericArg> = Vec::new();
    let mut i: usize = 0;
    while i < params.len()
        invariant
            i <= params@.len(),
            args@.len() == i,
            forall|k: int|
                0 <= k < i ==> (#[trigger] args@[k])@ == spec_path_args(
                    params@.map_values(|p: GenericParam| p@),
                )[k],
        decreases params@.len() - i,
    {
        proof {
            assert(params@.map_values(|p: GenericParam| p@)[i as int] == params@[i as int]@);
        }
        let a = match &params[i] {
            GenericParam::Type(t) => GenericArg::Type(t.ident.clone()),
            GenericParam::Lifetime(l) => GenericArg::Lifetime(l.clone()),
            GenericParam::Const(c) => GenericArg::Type(c.clone()),
        };
        args.push(a);
        i += 1;
    }
    proof {
        assert(args@.map_values(|a: GenericArg| a@) =~= spec_path_args(
            params@.map_values(|p: GenericParam| p@),
        ));
    }
    args
}

/// A type parameter name that cannot collide with any parameter of the
/// item: the base followed by every type parameter's name.
pub open spec fn spec_hygienic(params: Seq<GenericParamV>, acc: Seq<char>) -> Seq<char>
    decreases params.len(),
{
    if params.len() == 0 {
        acc
    } else {
        let acc2 = match params[0] {
            GenericParamV::Type(t) => acc + t.ident,
            _ => acc,
        };
        spec_hygienic(params.subrange(1, params.len() as int), acc2)
    }
}

/// Constructs a helper type parameter name that collides with no type
/// parameter of the item.
pub fn hygienic_type_parameter(item: &ast::Input, base: &str) -> (r: String)
    ensures
        r@ == spec_hygienic(item.generics@.params, base@),
{
    let ghost ps = item.generics@.params;
    let mut out = base.to_owned();
    proof {
        assert(ps.subrange(0, ps.len() as int) =~= ps);
    }
    let mut i: usize = 0;
    while i < item.generics.params.len()
        invariant
            i <= ps.len(),
            ps == item.generics@.params,
            ps.len() == item.generics.params@.len(),
            spec_hygienic(ps.subrange(i as int, ps.len() as int), out@) == spec_hygienic(ps, base@),
        decreases ps.len() - i,
    {
        let ghost tail = ps.subrange(i as int, ps.len() as int);
        assert(tail[0] == ps[i as int]);
        proof {
            assert(tail.subrange(1, tail.len() as int) =~= ps.subrange(i + 1, ps.len() as int));
            assert(ps[i as int] == item.generics.params@[i as int]@);
        }
        match &item.generics.params[i] {
            GenericParam::Type(t) => {
                out.append(t.ident.as_str());
            },
            _ => {},
        }
        i += 1;
    }
    proof {
        assert(ps.subrange(ps.len() as int, ps.len() as int) =~= Seq::<GenericParamV>::empty());
    }
    out
}

// ===========================================================================
// Token-text rendering of generics.
// ===========================================================================

/// The text of one generic parameter in an implementation header.
pub open spec fn spec_param_text(p: GenericParamV) -> Seq<char> {
    match p {
        GenericParamV::Type(t) => t.ident,
        GenericParamV::Lifetime(l) => l,
        GenericParamV::Const(c) => c,
    }
}

/// The comma-joined parameter names, appended to `acc`.
pub open spec fn spec_join_params(params: Seq<GenericParamV>, acc: Seq<char>, first: bool) -> Seq<
    char,
>
    decreases params.len(),
{
    if params.len() == 0 {
        acc
    } else {
        let acc2 = if first {
            acc + spec_param_text(params[0])
        } else {
            acc + ", "@ + spec_param_text(params[0])
        };
        spec_join_params(params.subrange(1, params.len() as int), acc2, false)
    }
}

/// The rendered parameter list `< .. >` of an implementation header;
/// empty when there are no parameters.
pub open spec fn spec_render_params(params: Seq<GenericParamV>) -> Seq<char> {
    if params.len() == 0 {
        Seq::empty()
    } else {
        spec_join_params(params, "< "@, true) + " > "@
    }
}

fn param_text(p: &GenericParam) -> (r: String)
    ensures
        r@ == spec_param_text(p@),
{
    match p {
        GenericParam::Type(t) => t.ident.clone(),
        GenericParam::Lifetime(l) => l.clone(),
        GenericParam::Const(c) => c.clone(),
    }
}

/// Renders the generic parameter list of an implementation header.
pub fn render_params(params: &Vec<GenericParam>) -> (r: String)
    ensures
        r@ == spec_render_params(params@.map_values(|p: GenericParam| p@)),
{
    let ghost ps = params@.map_values(|p: GenericParam| p@);
    if params.len() == 0 {
        let r = String::new();
        assert(r@ =~= spec_render_params(ps));
        return r;
    }
    let mut out = String::from_str("< ");
    proof {
        assert(ps.subrange(0, ps.len() as int) =~= ps);
    }
    let mut i: usize = 0;
    let mut first = true;
    while i < params.len()
        invariant
            i <= ps.len(),
            ps == params@.map_values(|p: GenericParam| p@),
            ps.len() == params@.len(),
            ps.len() > 0,
            first == (i == 0),
            spec_join_params(ps.subrange(i as int, ps.len() as int), out@, first)
                == spec_join_params(ps, "< "@, true),
        decreases ps.len() - i,
    {
        let ghost tail = ps.subrange(i as int, ps.len() as int);
        assert(tail[0] == ps[i as int]);
        proof {
            assert(tail.subrange(1, tail.len() as int) =~= ps.subrange(i + 1, ps.len() as int));
            assert(ps[i as int] == params@[i as int]@);
        }
        if !first {
            out.append(", ");
        }
        let t = param_text(&params[i]);
        out.append(t.as_str());
        first = false;
        i += 1;
    }
    proof {
        assert(ps.subrange(ps.len() as int, ps.len() as int) =~= Seq::<GenericParamV>::empty());
    }
    out.append(" > ");
    out
}

/// The text of one generic argument of the self type.
pub open spec fn spec_arg_text(a: GenericArgV) -> Seq<char> {
    match a {
        GenericArgV::Lifetime(l) => l,
        GenericArgV::Type(t) => t,
    }
}

/// The comma-joined argument names, appended to `acc`.
pub open spec fn spec_join_args(args: Seq<GenericArgV>, acc: Seq<char>, first: bool) -> Seq<char>
    decreases args.len(),
{
    if args.len() == 0 {
        acc
    } else {
        let acc2 = if first {
            acc + spec_arg_text(args[0])
        } else {
            acc + ", "@ + spec_arg_text(args[0])
        };
        spec_join_args(args.subrange(1, args.len() as int), acc2, false)
    }
}

/// The rendered argument list `< .. >` of the self type; empty when there
/// are no arguments.
pub open spec fn spec_render_args(args: Seq<GenericArgV>) -> Seq<char> {
    if args.len() == 0 {
        Seq::empty()
    } else {
        spec_join_args(args, "< "@, true) + " > "@
    }
}

/// Renders the generic arguments of the self type.
pub fn render_args(args: &Vec<GenericArg>) -> (r: String)
    ensures
        r@ == spec_render_args(args@.map_values(|a: GenericArg| a@)),
{
    let ghost vs = args@.map_values(|a: GenericArg| a@);
    if args.len() == 0 {
        let r = String::new();
        assert(r@ =~= spec_render_args(vs));
        return r;
    }
    let mut out = String::from_str("< ");
    proof {
        assert(vs.subrange(0, vs.len() as int) =~= vs);
    }
    let mut i: usize = 0;
    let mut first = true;
    while i < args.len()
        invariant
            i <= vs.len(),
            vs == args@.map_values(|a: GenericArg| a@),
            vs.len() == args@.len(),
            vs.len() > 0,
            first == (i == 0),
            spec_join_args(vs.subrange(i as int, vs.len() as int), out@, first) == spec_join_args(
                vs,
                "< "@,
                true,
            ),
        decreases vs.len() - i,
    {
        let ghost tail = vs.subrange(i as int, vs.len() as int);
        assert(tail[0] == vs[i as int]);
        proof {
            assert(tail.subrange(1, tail.len() as int) =~= vs.subrange(i + 1, vs.len() as int));
            assert(vs[i as int] == args@[i as int]@);
        }
        if !first {
            out.append(", ");
        }
        match &args[i] {
            GenericArg::Lifetime(l) => out.append(l.as_str()),
            GenericArg::Type(t) => out.append(t.as_str()),
        }
        first = false;
        i += 1;
    }
    proof {
        assert(vs.subrange(vs.len() as int, vs.len() as int) =~= Seq::<GenericArgV>::empty());
    }
    out.append(" > ");
    out
}

/// The text of one where-clause predicate.
pub open spec fn spec_pred_text(p: PredV) -> Seq<char> {
    p.param + " : "@ + p.bounds
}

/// The comma-joined predicates, appended to `acc`.
pub open spec fn spec_join_preds(preds: Seq<PredV>, acc: Seq<char>, first: bool) -> Seq<char>
    decreases preds.len(),
{
    if preds.len() == 0 {
        acc
    } else {
        let acc2 = if first {
            acc + spec_pred_text(preds[0])
        } else {
            acc + " , "@ + spec_pred_text(preds[0])
        };
        spec_join_preds(preds.subrange(1, preds.len() as int), acc2, false)
    }
}

/// The rendered where clause; empty when there are no predicates.
pub open spec fn spec_render_where(preds: Seq<PredV>) -> Seq<char> {
    if preds.len() == 0 {
        Seq::empty()
    } else {
        spec_join_preds(preds, "where "@, true) + " "@
    }
}

/// Renders the where clause of an implementation header.
pub fn render_where(preds: &Vec<Predicate>) -> (r: String)
    ensures
        r@ == spec_render_where(crate::bound::preds_view(preds@)),
{
    let ghost vs = crate::bound::preds_view(preds@);
    if preds.len() == 0 {
        let r = String::new();
        assert(r@ =~= spec_render_where(vs));
        return r;
    }
    let mut out = String::from_str("where ");
    proof {
        assert(vs.subrange(0, vs.len() as int) =~= vs);
    }
    let mut i: usize = 0;
    let mut first = true;
    while i < preds.len()
        invariant
            i <= vs.len(),
            vs == crate::bound::preds_view(preds@),
            vs.len() == preds@.len(),
            vs.len() > 0,
            first == (i == 0),
            spec_join_preds(vs.subrange(i as int, vs.len() as int), out@, first)
                == spec_join_preds(vs, "where "@, true),
        decreases vs.len() - i,
    {
        let ghost tail = vs.subrange(i as int, vs.len() as int);
        assert(tail[0] == vs[i as int]);
        proof {
            assert(tail.subrange(1, tail.len() as int) =~= vs.subrange(i + 1, vs.len() as int));
            assert(vs[i as int] == preds@[i as int]@);
        }
        let ghost prev = out@;
        if !first {
            out.append(" , ");
        }
        out.append(preds[i].param.as_str());
        out.append(" : ");
        out.append(preds[i].bounds.as_str());
        proof {
            if first {
                assert(out@ =~= prev + spec_pred_text(vs[i as int]));
            } else {
                assert(out@ =~= prev + " , "@ + spec_pred_text(vs[i as int]));
            }
        }
        first = false;
        i += 1;
    }
    proof {
        assert(vs.subrange(vs.len() as int, vs.len() as int) =~= Seq::<PredV>::empty());
    }
    out.append(" ");
    out
}

/// Assembles one implementation fragment from its rendered pieces.
pub fn assemble_impl(
    params: String,
    trait_path: &str,
    name: &str,
    args: String,
    where_text: String,
    body: String,
) -> (r: String)
    ensures
        r@ == "impl "@ + params@ + trait_path@ + " for "@ + name@ + " "@ + args@ + where_text@
            + "{ "@ + body@ + "}"@,
{
    let mut out = String::from_str("impl ");
    out.append(params.as_str());
    out.append(trait_path);
    out.append(" for ");
    out.append(name);
    out.append(" ");
    out.append(args.as_str());
    out.append(where_text.as_str());
    out.append("{ ");
    out.append(body.as_str());
    out.append("}");
    assert(out@ =~= "impl "@ + params@ + trait_path@ + " for "@ + name@ + " "@ + args@
        + where_text@ + "{ "@ + body@ + "}"@);
    out
}


/// Override precedence for the whole pipeline: when every field either
/// carries an explicit per-field `bound` for `tr` or is ignored for it,
/// and there is no type-level override, the resolved where clause is
/// exactly the declaration's own clause followed by the union of the
/// explicit per-field constraints, in declaration order — independent of
/// anything structural inference would have produced.
pub proof fn lemma_override_precedence_pipeline(input: ast::Input, tr: TraitKind, path: Seq<char>)
    requires
        forall|j: int|
            0 <= j < ast::spec_all_fields(input.body).len() ==> !attr::spec_needs(
                (#[trigger] ast::spec_all_fields(input.body)[j]).attrs@,
                tr,
            ),
        attr::spec_input_override(input.attrs@, tr) is None,
    ensures
        spec_build_generics(input, tr, path).where_clause == input.generics@.where_clause
            + spec_fields_override_preds(ast::spec_all_fields(input.body), tr),
{
    let g0 = spec_without_defaults(input.generics@);
    let g1 = spec_with_preds(g0, spec_fields_override_preds(ast::spec_all_fields(input.body), tr));
    crate::bound::lemma_override_precedence(
        g1.params,
        ast::spec_all_fields(input.body),
        tr,
        path,
    );
    assert(spec_build_generics(input, tr, path).where_clause =~= input.generics@.where_clause
        + spec_fields_override_preds(ast::spec_all_fields(input.body), tr));
}

/// The full text of one generated implementation fragment for `tr`, with
/// the given body between the braces.
pub open spec fn spec_impl_text(
    input: ast::Input,
    tr: TraitKind,
    path: Seq<char>,
    body: Seq<char>,
) -> Seq<char> {
    let g = spec_build_generics(input, tr, path);
    "impl "@ + spec_render_params(g.params) + path + " for "@ + input.ident@ + " "@
        + spec_render_args(spec_path_args(g.params)) + spec_render_where(g.where_clause) + "{ "@
        + body + "}"@
}

/// Emits one implementation fragment: resolved generics, the trait path,
/// the self type with its arguments restated, and the body.
pub fn emit_impl(input: &ast::Input, tr: TraitKind, path: &str, body: String) -> (r: String)
    ensures
        r@ == spec_impl_text(*input, tr, path@, body@),
{
    let (g, args) = build_generics(input, path, tr);
    let params_text = render_params(&g.params);
    let args_text = render_args(&args);
    let where_text = render_where(&g.where_clause);
    let r = assemble_impl(params_text, path, input.ident.as_str(), args_text, where_text, body);
    assert(r@ =~= spec_impl_text(*input, tr, path@, body@));
    r
}

} // verus!
