//! The formatting emitter: builds each variant's formatter-builder calls,
//! honoring per-field ignores, the transparent single-field mode, and
//! per-field custom formatting functions, which are spliced in through a
//! shadowing wrapper type so the builder still sees an ordinary `Debug`
//! value.

use vstd::prelude::*;

use crate::ast;
use crate::ast::{Body, PathSeg, Style, TypeNode};
use crate::attr;
use crate::attr::TraitKind;
use crate::bound::{GenericParam, GenericParamV, Generics, PredV};
use crate::matcher::{spec_arm_fields, spec_binding_ident, spec_n_arms, BindingStyle, Matcher};
use crate::utils::{
    emit_impl, render_args, render_params, render_where, spec_impl_text, spec_path_args,
    spec_render_args, spec_render_params, spec_render_where,
};

verus! {

/// Whether a field takes part in bound inference for `Debug`.
pub fn needs_debug_bound(attrs: &attr::Field) -> (r: bool)
    ensures
        r == attr::spec_needs(attrs@, TraitKind::Debug),
{
    attr::needs_bound(attrs, TraitKind::Debug)
}

/// The path of the `Debug` trait.
pub fn debug_trait_path() -> (r: &'static str)
    ensures
        r@ == "::std::fmt::Debug"@,
{
    "::std::fmt::Debug"
}

// ===========================================================================
// Rendering type expressions back to text.
// ===========================================================================

/// The text of the type node `i`. Array lengths are not retained by the
/// model, so arrays render like slices.
pub open spec fn spec_render_type(nodes: Seq<TypeNode>, i: int) -> Seq<char>
    decreases i + 1, 0int, 0int,
{
    if 0 <= i < nodes.len() {
        match nodes[i] {
            TypeNode::Path { global, segs } => (if global {
                ":: "@
            } else {
                Seq::<char>::empty()
            }) + spec_render_segs(nodes, segs@, i, true),
            TypeNode::Tuple { elems } => "( "@ + spec_render_arglist(nodes, elems@, i) + ")"@,
            TypeNode::Ref { inner } => "& "@ + (if inner < i {
                spec_render_type(nodes, inner as int)
            } else {
                Seq::empty()
            }),
            TypeNode::Ptr { inner } => "* const "@ + (if inner < i {
                spec_render_type(nodes, inner as int)
            } else {
                Seq::empty()
            }),
            TypeNode::Slice { elem } => "[ "@ + (if elem < i {
                spec_render_type(nodes, elem as int)
            } else {
                Seq::empty()
            }) + " ]"@,
            TypeNode::Array { elem } => "[ "@ + (if elem < i {
                spec_render_type(nodes, elem as int)
            } else {
                Seq::empty()
            }) + " ]"@,
        }
    } else {
        Seq::empty()
    }
}

/// The text of a path's segments, `::`-joined, each with its rendered
/// generic arguments.
pub open spec fn spec_render_segs(
    nodes: Seq<TypeNode>,
    segs: Seq<PathSeg>,
    bound: int,
    first: bool,
) -> Seq<char>
    decreases bound, 2int, segs.len(),
{
    if segs.len() == 0 {
        Seq::empty()
    } else {
        (if first {
            Seq::<char>::empty()
        } else {
            " :: "@
        }) + segs[0].ident@ + (if segs[0].args@.len() == 0 {
            Seq::<char>::empty()
        } else {
            " < "@ + spec_render_arglist(nodes, segs[0].args@, bound) + "> "@
        }) + spec_render_segs(nodes, segs.subrange(1, segs.len() as int), bound, false)
    }
}

/// The comma-trailing list of rendered child types.
pub open spec fn spec_render_arglist(nodes: Seq<TypeNode>, args: Seq<usize>, bound: int) -> Seq<
    char,
>
    decreases bound, 1int, args.len(),
{
    if args.len() == 0 {
        Seq::empty()
    } else {
        (if args[0] < bound {
            spec_render_type(nodes, args[0] as int)
        } else {
            Seq::empty()
        }) + " , "@ + spec_render_arglist(nodes, args.subrange(1, args.len() as int), bound)
    }
}

fn render_arglist(nodes: &Vec<TypeNode>, args: &Vec<usize>, j: usize, bound: usize) -> (r: String)
    requires
        j <= args@.len(),
        bound <= nodes@.len(),
    ensures
        r@ == spec_render_arglist(nodes@, args@.subrange(j as int, args@.len() as int),
            bound as int),
    decreases bound, 1int, args@.len() - j,
{
    let ghost tail = args@.subrange(j as int, args@.len() as int);
    if j == args.len() {
        let r = String::new();
        assert(r@ =~= spec_render_arglist(nodes@, tail, bound as int));
        return r;
    }
    assert(tail[0] == args@[j as int]);
    proof {
        assert(tail.subrange(1, tail.len() as int) =~= args@.subrange(j + 1, args@.len() as int));
    }
    let mut out = String::new();
    let a = args[j];
    if a < bound {
        let t = render_type_at(nodes, a);
        out.append(t.as_str());
    }
    out.append(" , ");
    let rest = render_arglist(nodes, args, j + 1, bound);
    out.append(rest.as_str());
    assert(out@ =~= spec_render_arglist(nodes@, tail, bound as int));
    out
}

fn render_segs(nodes: &Vec<TypeNode>, segs: &Vec<PathSeg>, j: usize, bound: usize, first: bool) -> (
    r: String)
    requires
        j <= segs@.len(),
        bound <= nodes@.len(),
    ensures
        r@ == spec_render_segs(nodes@, segs@.subrange(j as int, segs@.len() as int), bound as int,
            first),
    decreases bound, 2int, segs@.len() - j,
{
    let ghost tail = segs@.subrange(j as int, segs@.len() as int);
    if j == segs.len() {
        let r = String::new();
        assert(r@ =~= spec_render_segs(nodes@, tail, bound as int, first));
        return r;
    }
    assert(tail[0] == segs@[j as int]);
    proof {
        assert(tail.subrange(1, tail.len() as int) =~= segs@.subrange(j + 1, segs@.len() as int));
    }
    let mut out = String::new();
    if !first {
        out.append(" :: ");
    }
    out.append(segs[j].ident.as_str());
    if segs[j].args.len() > 0 {
        out.append(" < ");
        let al = render_arglist(nodes, &segs[j].args, 0, bound);
        out.append(al.as_str());
        out.append("> ");
        proof {
            assert(segs@[j as int].args@.subrange(0, segs@[j as int].args@.len() as int)
                =~= segs@[j as int].args@);
        }
    }
    let rest = render_segs(nodes, segs, j + 1, bound, false);
    out.append(rest.as_str());
    assert(out@ =~= spec_render_segs(nodes@, tail, bound as int, first));
    out
}

fn render_type_at(nodes: &Vec<TypeNode>, i: usize) -> (r: String)
    requires
        i < nodes@.len(),
    ensures
        r@ == spec_render_type(nodes@, i as int),
    decreases i + 1, 0int, 0int,
{
    match &nodes[i] {
        TypeNode::Path { global, segs } => {
            let mut out = String::new();
            if *global {
                out.append(":: ");
            }
            let s = render_segs(nodes, segs, 0, i, true);
            out.append(s.as_str());
            proof {
                assert(segs@.subrange(0, segs@.len() as int) =~= segs@);
            }
            assert(out@ =~= spec_render_type(nodes@, i as int));
            out
        },
        TypeNode::Tuple { elems } => {
            let mut out = String::from_str("( ");
            let al = render_arglist(nodes, elems, 0, i);
            out.append(al.as_str());
            out.append(")");
            proof {
                assert(elems@.subrange(0, elems@.len() as int) =~= elems@);
            }
            assert(out@ =~= spec_render_type(nodes@, i as int));
            out
        },
        TypeNode::Ref { inner } => {
            let mut out = String::from_str("& ");
            if *inner < i {
                let t = render_type_at(nodes, *inner);
                out.append(t.as_str());
            }
            assert(out@ =~= spec_render_type(nodes@, i as int));
            out
        },
        TypeNode::Ptr { inner } => {
            let mut out = String::from_str("* const ");
            if *inner < i {
                let t = render_type_at(nodes, *inner);
                out.append(t.as_str());
            }
            assert(out@ =~= spec_render_type(nodes@, i as int));
            out
        },
        TypeNode::Slice { elem } => {
            let mut out = String::from_str("[ ");
            if *elem < i {
                let t = render_type_at(nodes, *elem);
                out.append(t.as_str());
            }
            out.append(" ]");
            assert(out@ =~= spec_render_type(nodes@, i as int));
            out
        },
        TypeNode::Array { elem } => {
            let mut out = String::from_str("[ ");
            if *elem < i {
                let t = render_type_at(nodes, *elem);
                out.append(t.as_str());
            }
            out.append(" ]");
            assert(out@ =~= spec_render_type(nodes@, i as int));
            out
        },
    }
}

/// The text of a whole type expression: its root node.
pub open spec fn spec_render_ty(ty: ast::TypeRepr) -> Seq<char> {
    if ty.nodes@.len() == 0 {
        Seq::empty()
    } else {
        spec_render_type(ty.nodes@, ty.nodes@.len() - 1)
    }
}

/// Renders a whole type expression back to token text.
pub fn render_ty(ty: &ast::TypeRepr) -> (r: String)
    ensures
        r@ == spec_render_ty(*ty),
{
    if ty.nodes.len() == 0 {
        let r = String::new();
        assert(r@ =~= spec_render_ty(*ty));
        r
    } else {
        render_type_at(&ty.nodes, ty.nodes.len() - 1)
    }
}

// ===========================================================================
// The shadowing wrapper for a custom formatting function.
// ===========================================================================

/// The constraints binding every type parameter to the wrapper's
/// lifetime.
pub open spec fn spec_lifetime_preds(params: Seq<GenericParamV>) -> Seq<PredV>
    decreases params.len(),
{
    if params.len() == 0 {
        Seq::empty()
    } else {
        (match params[0] {
            GenericParamV::Type(t) => seq![PredV { param: t.ident, bounds: "'_derivative"@ }],
            _ => Seq::empty(),
        }) + spec_lifetime_preds(params.subrange(1, params.len() as int))
    }
}

/// The comma-trailing list of type parameter names for the wrapper's
/// `PhantomData`.
pub open spec fn spec_phantoms(params: Seq<GenericParamV>) -> Seq<char>
    decreases params.len(),
{
    if params.len() == 0 {
        Seq::empty()
    } else {
        (match params[0] {
            GenericParamV::Type(t) => t.ident + " , "@,
            _ => Seq::<char>::empty(),
        }) + spec_phantoms(params.subrange(1, params.len() as int))
    }
}

/// The parameters of the wrapper: the item's parameters and one fresh
/// lifetime.
pub open spec fn spec_wrapper_params(g: Generics) -> Seq<GenericParamV> {
    g@.params + seq![GenericParamV::Lifetime("'_derivative"@)]
}

/// The where clause of the wrapper: the item's clause, the field's
/// explicit Debug bounds, and each type parameter outliving the wrapper's
/// lifetime.
pub open spec fn spec_wrapper_where(f: ast::Field, g: Generics) -> Seq<PredV> {
    g@.where_clause + (match f.attrs@.debug.bounds {
        Some(ps) => ps,
        None => Seq::empty(),
    }) + spec_lifetime_preds(g@.params)
}

/// The shadowing statement for a field with a custom formatting
/// function: a wrapper tuple struct borrowing the field, whose `Debug`
/// implementation calls the custom function, shadowed over the field's
/// binding.
pub open spec fn spec_format_with(f: ast::Field, i: int, fmt_fn: Seq<char>, g: Generics) -> Seq<
    char,
> {
    let b = spec_binding_ident("__arg"@, i);
    let p2 = spec_wrapper_params(g);
    let rp = spec_render_params(p2);
    let ra = spec_render_args(spec_path_args(p2));
    let rw = spec_render_where(spec_wrapper_where(f, g));
    "let "@ + b + " = { struct Dummy "@ + rp + "( & '_derivative "@ + spec_render_ty(f.ty)
        + " , ::std::marker::PhantomData < ( "@ + spec_phantoms(g@.params) + ") > ) "@ + rw
        + "; impl "@ + rp + "::std::fmt::Debug for Dummy "@ + ra + rw
        + "{ fn fmt ( & self , __f : & mut ::std::fmt::Formatter ) -> ::std::fmt::Result { "@
        + fmt_fn + " ( & self . 0 , __f ) } } Dummy :: "@ + spec_render_args(
        spec_path_args(g@.params),
    ) + "( "@ + b + " , ::std::marker::PhantomData ) } ; "@
}

fn lifetime_preds(g: &Generics) -> (r: Vec<crate::bound::Predicate>)
    ensures
        crate::bound::preds_view(r@) == spec_lifetime_preds(g@.params),
{
    let ghost ps = g@.params;
    proof {
        assert(ps.subrange(0, ps.len() as int) =~= ps);
    }
    let mut out: Vec<crate::bound::Predicate> = Vec::new();
    let mut i: usize = 0;
    while i < g.params.len()
        invariant
            i <= ps.len(),
            ps == g@.params,
            ps.len() == g.params@.len(),
            crate::bound::preds_view(out@) + spec_lifetime_preds(
                ps.subrange(i as int, ps.len() as int),
            ) == spec_lifetime_preds(ps),
        decreases ps.len() - i,
    {
        let ghost tail = ps.subrange(i as int, ps.len() as int);
        assert(tail[0] == ps[i as int]);
        proof {
            assert(tail.subrange(1, tail.len() as int) =~= ps.subrange(i + 1, ps.len() as int));
            assert(ps[i as int] == g.params@[i as int]@);
        }
        match &g.params[i] {
            GenericParam::Type(t) => {
                let ghost before = out@;
                out.push(
                    crate::bound::Predicate {
                        param: t.ident.clone(),
                        bounds: String::from_str("'_derivative"),
                    },
                );
                assert(crate::bound::preds_view(out@) =~= crate::bound::preds_view(before) + seq![
                    PredV { param: t.ident@, bounds: "'_derivative"@ },
                ]);
            },
            _ => {},
        }
        i += 1;
    }
    proof {
        assert(ps.subrange(ps.len() as int, ps.len() as int) =~= Seq::<GenericParamV>::empty());
        assert(crate::bound::preds_view(out@) + Seq::<PredV>::empty() =~= crate::bound::preds_view(
            out@,
        ));
    }
    out
}

fn phantoms(g: &Generics) -> (r: String)
    ensures
        r@ == spec_phantoms(g@.params),
{
    let ghost ps = g@.params;
    proof {
        assert(ps.subrange(0, ps.len() as int) =~= ps);
    }
    let mut out = String::new();
    let mut i: usize = 0;
    while i < g.params.len()
        invariant
            i <= ps.len(),
            ps == g@.params,
            ps.len() == g.params@.len(),
            out@ + spec_phantoms(ps.subrange(i as int, ps.len() as int)) == spec_phantoms(ps),
        decreases ps.len() - i,
    {
        let ghost tail = ps.subrange(i as int, ps.len() as int);
        assert(tail[0] == ps[i as int]);
        proof {
            assert(tail.subrange(1, tail.len() as int) =~= ps.subrange(i + 1, ps.len() as int));
            assert(ps[i as int] == g.params@[i as int]@);
        }
        let ghost before = out@;
        match &g.params[i] {
            GenericParam::Type(t) => {
                out.append(t.ident.as_str());
                out.append(" , ");
                assert(out@ =~= before + (match ps[i as int] {
                    GenericParamV::Type(tp) => tp.ident + " , "@,
                    _ => Seq::<char>::empty(),
                }));
            },
            _ => {},
        }
        i += 1;
    }
    proof {
        assert(ps.subrange(ps.len() as int, ps.len() as int) =~= Seq::<GenericParamV>::empty());
        assert(out@ + Seq::<char>::empty() =~= out@);
    }
    out
}

/// Emits the shadowing wrapper for one field with a custom formatting
/// function.
pub fn format_with(f: &ast::Field, i: usize, fmt_fn: &String, generics: &Generics) -> (r: String)
    ensures
        r@ == spec_format_with(*f, i as int, fmt_fn@, *generics),
{
    let mut params2 = crate::bound::clone_generics(generics).params;
    params2.push(GenericParam::Lifetime(String::from_str("'_derivative")));
    proof {
        assert(params2@.map_values(|p: GenericParam| p@) =~= spec_wrapper_params(*generics));
    }
    let mut wc2 = crate::bound::clone_generics(generics).where_clause;
    let mut field_preds = match &f.attrs.debug.bounds {
        Some(ps) => crate::bound::clone_preds(ps),
        None => Vec::new(),
    };
    let ghost fp = crate::bound::preds_view(field_preds@);
    wc2.append(&mut field_preds);
    let mut lt_preds = lifetime_preds(generics);
    wc2.append(&mut lt_preds);
    proof {
        assert(crate::bound::preds_view(wc2@) =~= spec_wrapper_where(*f, *generics));
    }
    let rp = render_params(&params2);
    let args2 = crate::utils::path_args_of(&params2);
    let ra = render_args(&args2);
    let rw = render_where(&wc2);
    let orig_args = crate::utils::path_args_of(&generics.params);
    let roa = render_args(&orig_args);
    let b = crate::matcher::binding_ident("__arg", i);
    let mut out = String::from_str("let ");
    out.append(b.as_str());
    out.append(" = { struct Dummy ");
    out.append(rp.as_str());
    out.append("( & '_derivative ");
    let ty = render_ty(&f.ty);
    out.append(ty.as_str());
    out.append(" , ::std::marker::PhantomData < ( ");
    let ph = phantoms(generics);
    out.append(ph.as_str());
    out.append(") > ) ");
    out.append(rw.as_str());
    out.append("; impl ");
    out.append(rp.as_str());
    out.append("::std::fmt::Debug for Dummy ");
    out.append(ra.as_str());
    out.append(rw.as_str());
    out.append("{ fn fmt ( & self , __f : & mut ::std::fmt::Formatter ) -> ::std::fmt::Result { ");
    out.append(fmt_fn.as_str());
    out.append(" ( & self . 0 , __f ) } } Dummy :: ");
    out.append(roa.as_str());
    out.append("( ");
    out.append(b.as_str());
    out.append(" , ::std::marker::PhantomData ) } ; ");
    assert(out@ =~= spec_format_with(*f, i as int, fmt_fn@, *generics));
    out
}

// ===========================================================================
// The formatting body.
// ===========================================================================

/// The builder statements over the fields from `i` on.
pub open spec fn spec_debug_stmts(
    input: ast::Input,
    fields: Seq<ast::Field>,
    i: int,
    named: bool,
) -> Seq<char>
    decreases fields.len() - i,
{
    if i < 0 || i >= fields.len() {
        Seq::empty()
    } else {
        (if fields[i].attrs@.debug.ignore {
            Seq::<char>::empty()
        } else {
            (match fields[i].attrs@.debug.with {
                Some(p) => spec_format_with(fields[i], i, p, input.generics),
                None => Seq::empty(),
            }) + (if named {
                match fields[i].ident {
                    Some(n) => "let _ = builder . field ( \""@ + n@ + "\" , & "@
                        + spec_binding_ident("__arg"@, i) + " ) ; "@,
                    None => "let _ = builder . field ( & "@ + spec_binding_ident("__arg"@, i)
                        + " ) ; "@,
                }
            } else {
                "let _ = builder . field ( & "@ + spec_binding_ident("__arg"@, i) + " ) ; "@
            })
        }) + spec_debug_stmts(input, fields, i + 1, named)
    }
}

/// The transparent pieces: each non-ignored field formats the first
/// binding directly into the caller's formatter.
pub open spec fn spec_transparent_stmts(fields: Seq<ast::Field>, i: int) -> Seq<char>
    decreases fields.len() - i,
{
    if i < 0 || i >= fields.len() {
        Seq::empty()
    } else {
        (if fields[i].attrs@.debug.ignore {
            Seq::<char>::empty()
        } else {
            "::std::fmt::Debug::fmt ( __arg_0 , __f ) "@
        }) + spec_transparent_stmts(fields, i + 1)
    }
}

/// Whether arm `k` formats transparently: the variant's own directive on
/// an enum, the type-level directive on a struct.
pub open spec fn spec_arm_transparent(input: ast::Input, k: int) -> bool {
    match input.body {
        Body::Enum(vs) => attr::sec_flag(vs@[k].attrs@.debug),
        Body::Struct(..) => attr::sec_flag(input.attrs@.debug),
    }
}

/// The bare name of arm `k` as shown in output.
pub open spec fn spec_arm_shown_name(input: ast::Input, k: int) -> Seq<char> {
    match input.body {
        Body::Enum(vs) => vs@[k].ident@,
        Body::Struct(..) => input.ident@,
    }
}

/// Whether arm `k` has a named layout.
pub open spec fn spec_arm_named(input: ast::Input, k: int) -> bool {
    (match input.body {
        Body::Enum(vs) => vs@[k].style,
        Body::Struct(style, _) => style,
    }) is Struct
}

/// The formatting body of arm `k`.
pub open spec fn spec_debug_arm_body(input: ast::Input, k: int) -> Seq<char> {
    let fields = spec_arm_fields(input, k);
    if spec_arm_transparent(input, k) {
        spec_transparent_stmts(fields, 0)
    } else {
        let named = spec_arm_named(input, k);
        "let mut builder = __f . "@ + (if named {
            "debug_struct"@
        } else {
            "debug_tuple"@
        }) + " ( \""@ + spec_arm_shown_name(input, k) + "\" ) ; "@ + spec_debug_stmts(
            input,
            fields,
            0,
            named,
        ) + "builder . finish ( )"@
    }
}

/// The whole generated `fmt` body.
pub open spec fn spec_debug_body(input: ast::Input) -> Seq<char> {
    "fn fmt ( & self , __f : & mut ::std::fmt::Formatter ) -> ::std::fmt::Result { match * self { "@
        + Matcher::spec_build_arms(
        input,
        "__arg"@,
        "ref "@,
        Seq::new(spec_n_arms(input.body) as nat, |k: int| spec_debug_arm_body(input, k)),
        0,
        Seq::empty(),
    ) + "} }"@
}

/// The full generated `Debug` implementation.
pub open spec fn spec_derive_debug(input: ast::Input) -> Seq<char> {
    spec_impl_text(input, TraitKind::Debug, "::std::fmt::Debug"@, spec_debug_body(input))
}

fn debug_stmts(input: &ast::Input, fields: &Vec<ast::Field>, i: usize, named: bool) -> (r: String)
    requires
        i <= fields@.len(),
    ensures
        r@ == spec_debug_stmts(*input, fields@, i as int, named),
    decreases fields@.len() - i,
{
    if i == fields.len() {
        let r = String::new();
        assert(r@ =~= spec_debug_stmts(*input, fields@, i as int, named));
        return r;
    }
    let mut out = String::new();
    if !fields[i].attrs.debug.ignore {
        match &fields[i].attrs.debug.with {
            Some(p) => {
                let fw = format_with(&fields[i], i, p, &input.generics);
                out.append(fw.as_str());
            },
            None => {},
        }
        let mut has_name = false;
        if named {
            match &fields[i].ident {
                Some(n) => {
                    out.append("let _ = builder . field ( \"");
                    out.append(n.as_str());
                    out.append("\" , & ");
                    has_name = true;
                },
                None => {},
            }
        }
        if !has_name {
            out.append("let _ = builder . field ( & ");
        }
        let b = crate::matcher::binding_ident("__arg", i);
        out.append(b.as_str());
        out.append(" ) ; ");
    }
    let t = debug_stmts(input, fields, i + 1, named);
    out.append(t.as_str());
    assert(out@ =~= spec_debug_stmts(*input, fields@, i as int, named));
    out
}

fn transparent_stmts(fields: &Vec<ast::Field>, i: usize) -> (r: String)
    requires
        i <= fields@.len(),
    ensures
        r@ == spec_transparent_stmts(fields@, i as int),
    decreases fields@.len() - i,
{
    if i == fields.len() {
        let r = String::new();
        assert(r@ =~= spec_transparent_stmts(fields@, i as int));
        return r;
    }
    let mut out = String::new();
    if !fields[i].attrs.debug.ignore {
        out.append("::std::fmt::Debug::fmt ( __arg_0 , __f ) ");
    }
    let t = transparent_stmts(fields, i + 1);
    out.append(t.as_str());
    assert(out@ =~= spec_transparent_stmts(fields@, i as int));
    out
}

/// Derives `Debug` for `input`.
pub fn derive(input: &ast::Input) -> (r: String)
    ensures
        r@ == spec_derive_debug(*input),
{
    let n: usize = match &input.body {
        Body::Enum(vs) => vs.len(),
        Body::Struct(..) => 1,
    };
    let mut bodies: Vec<String> = Vec::new();
    let mut k: usize = 0;
    while k < n
        invariant
            k <= n,
            n == spec_n_arms(input.body),
            bodies@.len() == k,
            forall|j: int|
                0 <= j < k ==> (#[trigger] bodies@[j])@ == spec_debug_arm_body(*input, j),
        decreases n - k,
    {
        let (fields, name, transparent, style): (&Vec<ast::Field>, &String, bool, Style) =
            match &input.body {
            Body::Enum(vs) => (
                &vs[k].fields,
                &vs[k].ident,
                match &vs[k].attrs.debug {
                    Some(s) => s.flag,
                    None => false,
                },
                vs[k].style,
            ),
            Body::Struct(style, fs) => (
                fs,
                &input.ident,
                match &input.attrs.debug {
                    Some(s) => s.flag,
                    None => false,
                },
                *style,
            ),
        };
        let b: String = if transparent {
            transparent_stmts(fields, 0)
        } else {
            let named = matches!(style, Style::Struct);
            let mut b = String::from_str("let mut builder = __f . ");
            if named {
                b.append("debug_struct");
            } else {
                b.append("debug_tuple");
            }
            b.append(" ( \"");
            b.append(name.as_str());
            b.append("\" ) ; ");
            let stmts = debug_stmts(input, fields, 0, named);
            b.append(stmts.as_str());
            b.append("builder . finish ( )");
            b
        };
        assert(b@ =~= spec_debug_arm_body(*input, k as int));
        bodies.push(b);
        k += 1;
    }
    proof {
        assert(bodies@.map_values(|s: String| s@) =~= Seq::new(
            spec_n_arms(input.body) as nat,
            |j: int| spec_debug_arm_body(*input, j),
        ));
    }
    let arms = Matcher::new(BindingStyle::Ref).build_arms(input, "__arg", &bodies);
    let mut body = String::from_str(
        "fn fmt ( & self , __f : & mut ::std::fmt::Formatter ) -> ::std::fmt::Result { match * self { ",
    );
    body.append(arms.as_str());
    body.append("} }");
    assert(body@ =~= spec_debug_body(*input));
    let r = emit_impl(input, TraitKind::Debug, debug_trait_path(), body);
    r
}

} // verus!
