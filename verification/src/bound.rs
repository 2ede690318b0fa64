//! Generic-parameter constraints: the model of a where-clause predicate, the
//! model of a generic parameter list, and the bound-inference engine that
//! computes the minimal constraint set a generated implementation needs.

use vstd::prelude::*;

use crate::ast;
use crate::ast::{PathSeg, TypeNode};
use crate::attr;
use crate::attr::TraitKind;
use crate::utils::str_eq;

verus! {

/// One where-clause predicate `param: bounds`, as written in a `bound`
/// directive or produced by structural inference.
pub struct Predicate {
    /// The constrained generic parameter (an identifier, possibly a
    /// lifetime such as `'a`).
    pub param: String,
    /// The bound list text on the right of the colon, e.g. `Clone + Debug`.
    pub bounds: String,
}

/// The mathematical view of a [`Predicate`].
pub struct PredV {
    pub param: Seq<char>,
    pub bounds: Seq<char>,
}

impl View for Predicate {
    type V = PredV;

    open spec fn view(&self) -> PredV {
        PredV { param: self.param@, bounds: self.bounds@ }
    }
}

/// The views of a predicate list.
pub open spec fn preds_view(v: Seq<Predicate>) -> Seq<PredV> {
    v.map_values(|p: Predicate| p@)
}

// ===========================================================================
// The generic parameter list.
// ===========================================================================

/// One generic type parameter, possibly carrying a default type text that
/// a generated implementation must not restate.
pub struct TypeParam {
    pub ident: String,
    pub default: Option<String>,
}

/// One generic parameter of a declaration.
pub enum GenericParam {
    Type(TypeParam),
    Lifetime(String),
    Const(String),
}

/// The generic parameter list of a declaration together with its
/// where-clause predicates.
pub struct Generics {
    pub params: Vec<GenericParam>,
    pub where_clause: Vec<Predicate>,
}

/// The view of a [`TypeParam`].
pub struct TypeParamV {
    pub ident: Seq<char>,
    pub default: Option<Seq<char>>,
}

/// The view of a [`GenericParam`].
pub enum GenericParamV {
    Type(TypeParamV),
    Lifetime(Seq<char>),
    Const(Seq<char>),
}

/// The view of a [`Generics`].
pub struct GenericsV {
    pub params: Seq<GenericParamV>,
    pub where_clause: Seq<PredV>,
}

impl View for GenericParam {
    type V = GenericParamV;

    open spec fn view(&self) -> GenericParamV {
        match self {
            GenericParam::Type(t) => GenericParamV::Type(
                TypeParamV {
                    ident: t.ident@,
                    default: match t.default {
                        Some(ref d) => Some(d@),
                        None => None,
                    },
                },
            ),
            GenericParam::Lifetime(s) => GenericParamV::Lifetime(s@),
            GenericParam::Const(s) => GenericParamV::Const(s@),
        }
    }
}

impl View for Generics {
    type V = GenericsV;

    open spec fn view(&self) -> GenericsV {
        GenericsV {
            params: self.params@.map_values(|p: GenericParam| p@),
            where_clause: preds_view(self.where_clause@),
        }
    }
}

/// Copies a predicate list; the copy has the same view.
pub fn clone_preds(v: &Vec<Predicate>) -> (r: Vec<Predicate>)
    ensures
        preds_view(r@) == preds_view(v@),
{
    let mut out: Vec<Predicate> = Vec::new();
    let mut i: usize = 0;
    while i < v.len()
        invariant
            i <= v@.len(),
            out@.len() == i,
            forall|k: int| 0 <= k < i ==> (#[trigger] out@[k])@ == v@[k]@,
        decreases v@.len() - i,
    {
        out.push(Predicate { param: v[i].param.clone(), bounds: v[i].bounds.clone() });
        i += 1;
    }
    assert(preds_view(out@) =~= preds_view(v@));
    out
}

fn clone_param(p: &GenericParam) -> (r: GenericParam)
    ensures
        r@ == p@,
{
    match p {
        GenericParam::Type(t) => GenericParam::Type(
            TypeParam {
                ident: t.ident.clone(),
                default: match &t.default {
                    Some(d) => Some(d.clone()),
                    None => None,
                },
            },
        ),
        GenericParam::Lifetime(s) => GenericParam::Lifetime(s.clone()),
        GenericParam::Const(s) => GenericParam::Const(s.clone()),
    }
}

fn clone_params(v: &Vec<GenericParam>) -> (r: Vec<GenericParam>)
    ensures
        r@.map_values(|p: GenericParam| p@) == v@.map_values(|p: GenericParam| p@),
{
    let mut out: Vec<GenericParam> = Vec::new();
    let mut i: usize = 0;
    while i < v.len()
        invariant
            i <= v@.len(),
            out@.len() == i,
            forall|k: int| 0 <= k < i ==> (#[trigger] out@[k])@ == v@[k]@,
        decreases v@.len() - i,
    {
        out.push(clone_param(&v[i]));
        i += 1;
    }
    assert(out@.map_values(|p: GenericParam| p@) =~= v@.map_values(|p: GenericParam| p@));
    out
}

/// Copies a generic parameter list; the copy has the same view.
pub fn clone_generics(g: &Generics) -> (r: Generics)
    ensures
        r@ == g@,
{
    let r = Generics { params: clone_params(&g.params), where_clause: clone_preds(&g.where_clause) };
    assert(r@.params =~= g@.params);
    assert(r@.where_clause =~= g@.where_clause);
    r
}

/// A parameter list with every type-parameter default removed.
pub open spec fn spec_without_defaults(g: GenericsV) -> GenericsV {
    GenericsV {
        params: g.params.map_values(
            |p: GenericParamV|
                match p {
                    GenericParamV::Type(t) => GenericParamV::Type(
                        TypeParamV { ident: t.ident, default: None },
                    ),
                    other => other,
                },
        ),
        where_clause: g.where_clause,
    }
}

/// Removes the default from every type parameter: a generated
/// implementation restates the parameters, where defaults are illegal.
pub fn without_defaults(generics: &Generics) -> (r: Generics)
    ensures
        r@ == spec_without_defaults(generics@),
{
    let mut params: Vec<GenericParam> = Vec::new();
    let mut i: usize = 0;
    while i < generics.params.len()
        invariant
            i <= generics.params@.len(),
            params@.len() == i,
            forall|k: int|
                0 <= k < i ==> (#[trigger] params@[k])@ == spec_without_defaults(
                    generics@,
                ).params[k],
        decreases generics.params@.len() - i,
    {
        let p = match &generics.params[i] {
            GenericParam::Type(t) => GenericParam::Type(
                TypeParam { ident: t.ident.clone(), default: None },
            ),
            GenericParam::Lifetime(s) => GenericParam::Lifetime(s.clone()),
            GenericParam::Const(s) => GenericParam::Const(s.clone()),
        };
        params.push(p);
        i += 1;
    }
    let r = Generics { params, where_clause: clone_preds(&generics.where_clause) };
    assert(r@.params =~= spec_without_defaults(generics@).params);
    assert(r@.where_clause =~= spec_without_defaults(generics@).where_clause);
    r
}

/// A parameter list with extra where-clause predicates appended.
pub open spec fn spec_with_preds(g: GenericsV, preds: Seq<PredV>) -> GenericsV {
    GenericsV { params: g.params, where_clause: g.where_clause + preds }
}

/// Appends explicitly given where-clause predicates.
pub fn with_where_predicates(generics: &Generics, predicates: &Vec<Predicate>) -> (r: Generics)
    ensures
        r@ == spec_with_preds(generics@, preds_view(predicates@)),
{
    let params = clone_params(&generics.params);
    let mut wc = clone_preds(&generics.where_clause);
    let mut extra = clone_preds(predicates);
    let ghost wc0 = wc@;
    let ghost extra0 = extra@;
    wc.append(&mut extra);
    let r = Generics { params, where_clause: wc };
    assert(r@.where_clause =~= generics@.where_clause + preds_view(predicates@));
    r
}

/// The concatenation of all explicit per-field constraint overrides for
/// one trait, in declaration order.
pub open spec fn spec_fields_override_preds(fs: Seq<ast::Field>, tr: TraitKind) -> Seq<PredV>
    decreases fs.len(),
{
    if fs.len() == 0 {
        Seq::empty()
    } else {
        (match attr::spec_field_override(fs[0].attrs@, tr) {
            Some(ps) => ps,
            None => Seq::empty(),
        }) + spec_fields_override_preds(fs.subrange(1, fs.len() as int), tr)
    }
}

/// Appends every field's explicit constraint override for `tr` to the
/// where clause, in declaration order.
pub fn with_where_predicates_from_fields(
    item: &ast::Input,
    generics: &Generics,
    tr: TraitKind,
) -> (r: Generics)
    ensures
        r@ == spec_with_preds(
            generics@,
            spec_fields_override_preds(ast::spec_all_fields(item.body), tr),
        ),
{
    let ghost all = ast::spec_all_fields(item.body);
    let fields = item.body.all_fields();
    let params = clone_params(&generics.params);
    let mut wc = clone_preds(&generics.where_clause);
    let ghost base = wc@;
    proof {
        assert(all.subrange(0, all.len() as int) =~= all);
    }
    let mut i: usize = 0;
    while i < fields.len()
        invariant
            i <= fields@.len(),
            fields@.len() == all.len(),
            forall|k: int| 0 <= k < all.len() ==> *(#[trigger] fields@[k]) == all[k],
            preds_view(base) == preds_view(generics.where_clause@),
            preds_view(wc@) + spec_fields_override_preds(all.subrange(i as int, all.len() as int), tr)
                == preds_view(base) + spec_fields_override_preds(all, tr),
        decreases fields@.len() - i,
    {
        let ghost tail = all.subrange(i as int, all.len() as int);
        assert(tail[0] == all[i as int]);
        proof {
            assert(tail.subrange(1, tail.len() as int) =~= all.subrange(i + 1, all.len() as int));
        }
        match attr::field_override_bound(&fields[i].attrs, tr) {
            Some(ps) => {
                let ghost before = wc@;
                let mut extra = clone_preds(ps);
                wc.append(&mut extra);
                assert(preds_view(wc@) =~= preds_view(before) + preds_view(ps@));
                assert(preds_view(wc@) + spec_fields_override_preds(
                    all.subrange(i + 1, all.len() as int),
                    tr,
                ) =~= preds_view(before) + spec_fields_override_preds(tail, tr));
            },
            None => {
                assert(spec_fields_override_preds(tail, tr) =~= Seq::<PredV>::empty()
                    + spec_fields_override_preds(all.subrange(i + 1, all.len() as int), tr));
            },
        }
        i += 1;
    }
    proof {
        assert(all.subrange(all.len() as int, all.len() as int) =~= Seq::<ast::Field>::empty());
        assert(preds_view(wc@) + Seq::<PredV>::empty() =~= preds_view(wc@));
    }
    let r = Generics { params, where_clause: wc };
    assert(r@.where_clause =~= generics@.where_clause + spec_fields_override_preds(all, tr));
    r
}

// ===========================================================================
// Structural inference: which type parameters a field's type mentions.
// ===========================================================================

/// Whether the type node `i` mentions the generic parameter `name` as a
/// path segment, descending through nested type expressions but never
/// into the arguments of the `PhantomData` marker, which carries no value
/// at runtime and so gets no trait obligation.
pub open spec fn spec_mentions(nodes: Seq<TypeNode>, i: int, name: Seq<char>) -> bool
    decreases i + 1, 0int, 0int,
{
    if 0 <= i < nodes.len() {
        match nodes[i] {
            TypeNode::Path { global, segs } => if segs@.len() > 0 && segs@[segs@.len()
                - 1].ident@ == "PhantomData"@ {
                false
            } else {
                ||| (!global && segs@.len() == 1 && segs@[0].ident@ == name)
                ||| spec_segs_mention(nodes, segs@, i, name)
            },
            TypeNode::Tuple { elems } => spec_args_mention(nodes, elems@, i, name),
            TypeNode::Ref { inner } => inner < i && spec_mentions(nodes, inner as int, name),
            TypeNode::Ptr { inner } => inner < i && spec_mentions(nodes, inner as int, name),
            TypeNode::Slice { elem } => elem < i && spec_mentions(nodes, elem as int, name),
            TypeNode::Array { elem } => elem < i && spec_mentions(nodes, elem as int, name),
        }
    } else {
        false
    }
}

/// Whether any argument of any of the `segs` mentions `name`.
pub open spec fn spec_segs_mention(
    nodes: Seq<TypeNode>,
    segs: Seq<PathSeg>,
    bound: int,
    name: Seq<char>,
) -> bool
    decreases bound, 2int, segs.len(),
{
    if segs.len() == 0 {
        false
    } else {
        ||| spec_args_mention(nodes, segs[0].args@, bound, name)
        ||| spec_segs_mention(nodes, segs.subrange(1, segs.len() as int), bound, name)
    }
}

/// Whether any of the child nodes `args` (each smaller than `bound`)
/// mentions `name`.
pub open spec fn spec_args_mention(
    nodes: Seq<TypeNode>,
    args: Seq<usize>,
    bound: int,
    name: Seq<char>,
) -> bool
    decreases bound, 1int, args.len(),
{
    if args.len() == 0 {
        false
    } else {
        ||| (args[0] < bound && spec_mentions(nodes, args[0] as int, name))
        ||| spec_args_mention(nodes, args.subrange(1, args.len() as int), bound, name)
    }
}

fn args_mention(nodes: &Vec<TypeNode>, args: &Vec<usize>, j: usize, bound: usize, name: &str) -> (r:
    bool)
    requires
        j <= args@.len(),
        bound <= nodes@.len(),
    ensures
        r == spec_args_mention(nodes@, args@.subrange(j as int, args@.len() as int), bound as int,
            name@),
    decreases bound, 1int, args@.len() - j,
{
    let ghost tail = args@.subrange(j as int, args@.len() as int);
    if j == args.len() {
        false
    } else {
        assert(tail[0] == args@[j as int]);
        proof {
            assert(tail.subrange(1, tail.len() as int) =~= args@.subrange(
                j + 1,
                args@.len() as int,
            ));
        }
        let a = args[j];
        if a < bound && mentions(nodes, a, name) {
            true
        } else {
            args_mention(nodes, args, j + 1, bound, name)
        }
    }
}

fn segs_mention(nodes: &Vec<TypeNode>, segs: &Vec<PathSeg>, j: usize, bound: usize, name: &str) -> (
    r: bool)
    requires
        j <= segs@.len(),
        bound <= nodes@.len(),
    ensures
        r == spec_segs_mention(nodes@, segs@.subrange(j as int, segs@.len() as int), bound as int,
            name@),
    decreases bound, 2int, segs@.len() - j,
{
    let ghost tail = segs@.subrange(j as int, segs@.len() as int);
    if j == segs.len() {
        false
    } else {
        assert(tail[0] == segs@[j as int]);
        proof {
            assert(tail.subrange(1, tail.len() as int) =~= segs@.subrange(
                j + 1,
                segs@.len() as int,
            ));
        }
        if args_mention(nodes, &segs[j].args, 0, bound, name) {
            proof {
                assert(segs@[j as int].args@.subrange(0, segs@[j as int].args@.len() as int)
                    =~= segs@[j as int].args@);
            }
            true
        } else {
            proof {
                assert(segs@[j as int].args@.subrange(0, segs@[j as int].args@.len() as int)
                    =~= segs@[j as int].args@);
            }
            segs_mention(nodes, segs, j + 1, bound, name)
        }
    }
}

/// Whether the subtree rooted at node `i` mentions the parameter `name`.
pub fn mentions(nodes: &Vec<TypeNode>, i: usize, name: &str) -> (r: bool)
    requires
        i < nodes@.len(),
    ensures
        r == spec_mentions(nodes@, i as int, name@),
    decreases i + 1, 0int, 0int,
{
    match &nodes[i] {
        TypeNode::Path { global, segs } => {
            if segs.len() > 0 && str_eq(segs[segs.len() - 1].ident.as_str(), "PhantomData") {
                false
            } else if !*global && segs.len() == 1 && str_eq(segs[0].ident.as_str(), name) {
                true
            } else {
                let r = segs_mention(nodes, segs, 0, i, name);
                proof {
                    assert(segs@.subrange(0, segs@.len() as int) =~= segs@);
                }
                r
            }
        },
        TypeNode::Tuple { elems } => {
            let r = args_mention(nodes, elems, 0, i, name);
            proof {
                assert(elems@.subrange(0, elems@.len() as int) =~= elems@);
            }
            r
        },
        TypeNode::Ref { inner } => *inner < i && mentions(nodes, *inner, name),
        TypeNode::Ptr { inner } => *inner < i && mentions(nodes, *inner, name),
        TypeNode::Slice { elem } => *elem < i && mentions(nodes, *elem, name),
        TypeNode::Array { elem } => *elem < i && mentions(nodes, *elem, name),
    }
}

/// Whether the root of a field's type expression mentions `name`.
pub open spec fn spec_ty_mentions(ty: ast::TypeRepr, name: Seq<char>) -> bool {
    ty.nodes@.len() > 0 && spec_mentions(ty.nodes@, ty.nodes@.len() - 1, name)
}

/// Whether some field that takes part in inference for `tr` mentions the
/// parameter `name`: exactly then does the parameter get a constraint.
pub open spec fn spec_param_used(fs: Seq<ast::Field>, tr: TraitKind, name: Seq<char>) -> bool {
    exists|j: int|
        0 <= j < fs.len() && attr::spec_needs((#[trigger] fs[j]).attrs@, tr) && spec_ty_mentions(
            fs[j].ty,
            name,
        )
}

fn param_used(fields: &Vec<&ast::Field>, tr: TraitKind, name: &str) -> (r: bool)
    ensures
        r == spec_param_used(
            Seq::new(fields@.len() as nat, |j: int| *fields@[j]),
            tr,
            name@,
        ),
{
    let ghost all = Seq::new(fields@.len() as nat, |j: int| *fields@[j]);
    let mut j: usize = 0;
    while j < fields.len()
        invariant
            j <= fields@.len(),
            all == Seq::new(fields@.len() as nat, |k: int| *fields@[k]),
            forall|k: int|
                0 <= k < j ==> !(attr::spec_needs((#[trigger] all[k]).attrs@, tr)
                    && spec_ty_mentions(all[k].ty, name@)),
        decreases fields@.len() - j,
    {
        let f: &ast::Field = fields[j];
        assert(*f == all[j as int]);
        if attr::needs_bound(&f.attrs, tr) {
            let n = f.ty.nodes.len();
            if n > 0 && mentions(&f.ty.nodes, n - 1, name) {
                return true;
            }
        }
        j += 1;
    }
    false
}

/// The constraints that structural inference adds: one `param: bound` for
/// every generic type parameter, in declaration order, that some relevant
/// field mentions.
pub open spec fn spec_inferred(
    params: Seq<GenericParamV>,
    fs: Seq<ast::Field>,
    tr: TraitKind,
    bound: Seq<char>,
) -> Seq<PredV>
    decreases params.len(),
{
    if params.len() == 0 {
        Seq::empty()
    } else {
        (match params[0] {
            GenericParamV::Type(t) => if spec_param_used(fs, tr, t.ident) {
                seq![PredV { param: t.ident, bounds: bound }]
            } else {
                Seq::empty()
            },
            _ => Seq::empty(),
        }) + spec_inferred(params.subrange(1, params.len() as int), fs, tr, bound)
    }
}

/// Puts `bound` on every generic type parameter that is mentioned by a
/// field taking part in inference for `tr`: parameters never touched by a
/// relevant field get no constraint, the minimality that keeps valid
/// instantiations from being rejected.
pub fn with_bound(item: &ast::Input, generics: &Generics, tr: TraitKind, bound: &str) -> (r:
    Generics)
    ensures
        r@ == spec_with_preds(
            generics@,
            spec_inferred(generics@.params, ast::spec_all_fields(item.body), tr, bound@),
        ),
{
    let ghost all = ast::spec_all_fields(item.body);
    let fields = item.body.all_fields();
    proof {
        assert(Seq::new(fields@.len() as nat, |j: int| *fields@[j]) =~= all);
    }
    let params = clone_params(&generics.params);
    let mut wc = clone_preds(&generics.where_clause);
    let ghost gp = generics@.params;
    proof {
        assert(gp.subrange(0, gp.len() as int) =~= gp);
    }
    let mut i: usize = 0;
    while i < generics.params.len()
        invariant
            i <= gp.len(),
            gp == generics@.params,
            gp.len() == generics.params@.len(),
            fields@.len() == all.len(),
            all == Seq::new(fields@.len() as nat, |j: int| *fields@[j]),
            forall|k: int| 0 <= k < all.len() ==> *(#[trigger] fields@[k]) == all[k],
            preds_view(wc@) + spec_inferred(gp.subrange(i as int, gp.len() as int), all, tr, bound@)
                == preds_view(generics.where_clause@) + spec_inferred(gp, all, tr, bound@),
        decreases gp.len() - i,
    {
        let ghost tail = gp.subrange(i as int, gp.len() as int);
        assert(tail[0] == gp[i as int]);
        proof {
            assert(tail.subrange(1, tail.len() as int) =~= gp.subrange(i + 1, gp.len() as int));
        }
        assert(gp[i as int] == generics.params@[i as int]@);
        match &generics.params[i] {
            GenericParam::Type(t) => {
                if param_used(&fields, tr, t.ident.as_str()) {
                    let ghost before = wc@;
                    wc.push(Predicate { param: t.ident.clone(), bounds: bound.to_owned() });
                    assert(preds_view(wc@) =~= preds_view(before) + seq![
                        PredV { param: t.ident@, bounds: bound@ },
                    ]);
                }
            },
            _ => {},
        }
        i += 1;
    }
    proof {
        assert(gp.subrange(gp.len() as int, gp.len() as int) =~= Seq::<GenericParamV>::empty());
        assert(preds_view(wc@) + Seq::<PredV>::empty() =~= preds_view(wc@));
    }
    let r = Generics { params, where_clause: wc };
    assert(r@.where_clause =~= generics@.where_clause + spec_inferred(gp, all, tr, bound@));
    r
}

// ===========================================================================
// Laws of the inference engine.
// ===========================================================================

/// Bound minimality: every constraint that structural inference adds is
/// on a parameter that some relevant field mentions. A generic parameter
/// never referenced by any relevant field gets no constraint from any
/// trait.
pub proof fn lemma_bound_minimality(
    params: Seq<GenericParamV>,
    fs: Seq<ast::Field>,
    tr: TraitKind,
    bound: Seq<char>,
    name: Seq<char>,
)
    requires
        !spec_param_used(fs, tr, name),
    ensures
        forall|k: int|
            0 <= k < spec_inferred(params, fs, tr, bound).len() ==> (#[trigger] spec_inferred(
                params,
                fs,
                tr,
                bound,
            )[k]).param != name,
    decreases params.len(),
{
    if params.len() > 0 {
        let tail = params.subrange(1, params.len() as int);
        lemma_bound_minimality(tail, fs, tr, bound, name);
        let head: Seq<PredV> = match params[0] {
            GenericParamV::Type(t) => if spec_param_used(fs, tr, t.ident) {
                seq![PredV { param: t.ident, bounds: bound }]
            } else {
                Seq::empty()
            },
            _ => Seq::empty(),
        };
        assert(spec_inferred(params, fs, tr, bound) == head + spec_inferred(tail, fs, tr, bound));
        assert forall|k: int| 0 <= k < spec_inferred(params, fs, tr, bound).len() implies (
        #[trigger] spec_inferred(params, fs, tr, bound)[k]).param != name by {
            if k < head.len() {
                assert(spec_inferred(params, fs, tr, bound)[k] == head[k]);
                match params[0] {
                    GenericParamV::Type(t) => {
                        assert(spec_param_used(fs, tr, t.ident));
                        assert(t.ident != name);
                    },
                    _ => {},
                }
            } else {
                assert(spec_inferred(params, fs, tr, bound)[k] == spec_inferred(
                    tail,
                    fs,
                    tr,
                    bound,
                )[k - head.len()]);
            }
        }
    }
}

/// Override precedence, inference half: when every field either carries
/// an explicit per-field `bound` for `tr` or is ignored for it, the
/// structural pass adds nothing, so the resulting constraint set is
/// exactly the union of the explicit per-field constraints.
pub proof fn lemma_override_precedence(
    params: Seq<GenericParamV>,
    fs: Seq<ast::Field>,
    tr: TraitKind,
    bound: Seq<char>,
)
    requires
        forall|j: int| 0 <= j < fs.len() ==> !attr::spec_needs((#[trigger] fs[j]).attrs@, tr),
    ensures
        spec_inferred(params, fs, tr, bound) == Seq::<PredV>::empty(),
    decreases params.len(),
{
    if params.len() > 0 {
        lemma_override_precedence(params.subrange(1, params.len() as int), fs, tr, bound);
        match params[0] {
            GenericParamV::Type(t) => {
                assert(!spec_param_used(fs, tr, t.ident));
                assert(spec_inferred(params, fs, tr, bound) =~= Seq::<PredV>::empty());
            },
            _ => {
                assert(spec_inferred(params, fs, tr, bound) =~= Seq::<PredV>::empty());
            },
        }
    }
}

} // verus!
