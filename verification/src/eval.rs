//! The meaning of the generated comparison code, stated over a small value
//! universe: integers, empty markers, and integer sequences. An instance of
//! a declared type is a variant index plus one such value per field. The
//! evaluators here define what the emitted equality and ordering bodies
//! compute — the discriminant comparison first, then the field-by-field
//! conjunction for equality and the lexicographic, first-difference-wins
//! tie-break for ordering — and the algebraic laws of that semantics are
//! proved about them.
//!
//! A field with a custom comparison function cannot be evaluated inside the
//! model (the function is host code); every evaluator reports `None` exactly
//! when the generated code would have called one.

use core::cmp::Ordering;

use vstd::prelude::*;

use crate::ast;
use crate::ast::{Body, Style, TypeNode};
use crate::attr::{parse_int_lit, sec_flag, spec_parse_int_lit, ConfigError, ConfigErrorV};
use crate::utils::{append_i64, spec_dec_signed};

verus! {

/// One modeled runtime value.
pub enum Value {
    /// An integer, standing for any scalar field.
    Int(i64),
    /// A zero-sized marker such as `PhantomData`.
    Marker,
    /// A sequence of integers, standing for a vector or slice field.
    IntSeq(Vec<i64>),
}

/// One modeled instance of a declared type: which variant it holds, and
/// one value per field of that variant. A struct counts as its single
/// implicit variant, index zero.
pub struct Instance {
    pub variant: usize,
    pub fields: Vec<Value>,
}

/// The fields of the variant an instance inhabits.
pub open spec fn spec_inst_fields(input: ast::Input, v: Instance) -> Seq<ast::Field> {
    match input.body {
        Body::Enum(vs) => vs@[v.variant as int].fields@,
        Body::Struct(_, fs) => fs@,
    }
}

/// Whether an instance fits a declaration: its variant exists and it
/// carries exactly one value per field.
pub open spec fn inst_wf(input: ast::Input, v: Instance) -> bool {
    &&& match input.body {
        Body::Enum(vs) => v.variant < vs@.len(),
        Body::Struct(..) => v.variant == 0,
    }
    &&& v.fields@.len() == spec_inst_fields(input, v).len()
}

// ===========================================================================
// Value equality and ordering.
// ===========================================================================

/// Structural equality of two modeled values; values of different kinds
/// are unequal.
pub open spec fn spec_value_eq(x: Value, y: Value) -> bool {
    match (x, y) {
        (Value::Int(a), Value::Int(b)) => a == b,
        (Value::Marker, Value::Marker) => true,
        (Value::IntSeq(a), Value::IntSeq(b)) => a@ == b@,
        _ => false,
    }
}

/// Lexicographic comparison of two integer sequences from index `i` on.
pub open spec fn spec_seq_cmp(a: Seq<i64>, b: Seq<i64>, i: int) -> Ordering
    decreases a.len() + b.len() - 2 * i,
{
    if i < 0 {
        Ordering::Equal
    } else if i >= a.len() && i >= b.len() {
        Ordering::Equal
    } else if i >= a.len() {
        Ordering::Less
    } else if i >= b.len() {
        Ordering::Greater
    } else if a[i] < b[i] {
        Ordering::Less
    } else if a[i] > b[i] {
        Ordering::Greater
    } else {
        spec_seq_cmp(a, b, i + 1)
    }
}

/// The partial order on modeled values: total within one kind,
/// incomparable across kinds.
pub open spec fn spec_value_cmp(x: Value, y: Value) -> Option<Ordering> {
    match (x, y) {
        (Value::Int(a), Value::Int(b)) => if a < b {
            Some(Ordering::Less)
        } else if a > b {
            Some(Ordering::Greater)
        } else {
            Some(Ordering::Equal)
        },
        (Value::Marker, Value::Marker) => Some(Ordering::Equal),
        (Value::IntSeq(a), Value::IntSeq(b)) => Some(spec_seq_cmp(a@, b@, 0)),
        _ => None,
    }
}

/// Structural equality of two modeled values.
pub fn value_eq(x: &Value, y: &Value) -> (r: bool)
    ensures
        r == spec_value_eq(*x, *y),
{
    match (x, y) {
        (Value::Int(a), Value::Int(b)) => *a == *b,
        (Value::Marker, Value::Marker) => true,
        (Value::IntSeq(a), Value::IntSeq(b)) => {
            assert(spec_value_eq(*x, *y) == (a@ == b@));
            if a.len() != b.len() {
                assert(a@.len() != b@.len());
                assert(a@ != b@);
                return false;
            }
            let mut i: usize = 0;
            while i < a.len()
                invariant
                    i <= a@.len(),
                    a@.len() == b@.len(),
                    spec_value_eq(*x, *y) == (a@ == b@),
                    forall|k: int| 0 <= k < i ==> a@[k] == b@[k],
                decreases a@.len() - i,
            {
                if a[i] != b[i] {
                    assert(a@[i as int] != b@[i as int]);
                    assert(a@ != b@);
                    return false;
                }
                i += 1;
            }
            assert(a@ =~= b@);
            true
        },
        _ => false,
    }
}

fn seq_cmp_from(a: &Vec<i64>, b: &Vec<i64>, i: usize) -> (r: Ordering)
    requires
        i <= a@.len(),
        i <= b@.len(),
    ensures
        r == spec_seq_cmp(a@, b@, i as int),
    decreases a@.len() - i,
{
    if i >= a.len() && i >= b.len() {
        Ordering::Equal
    } else if i >= a.len() {
        Ordering::Less
    } else if i >= b.len() {
        Ordering::Greater
    } else if a[i] < b[i] {
        Ordering::Less
    } else if a[i] > b[i] {
        Ordering::Greater
    } else {
        seq_cmp_from(a, b, i + 1)
    }
}

/// The partial order on modeled values.
pub fn value_cmp(x: &Value, y: &Value) -> (r: Option<Ordering>)
    ensures
        r == spec_value_cmp(*x, *y),
{
    match (x, y) {
        (Value::Int(a), Value::Int(b)) => {
            if *a < *b {
                Some(Ordering::Less)
            } else if *a > *b {
                Some(Ordering::Greater)
            } else {
                Some(Ordering::Equal)
            }
        },
        (Value::Marker, Value::Marker) => Some(Ordering::Equal),
        (Value::IntSeq(a), Value::IntSeq(b)) => Some(seq_cmp_from(a, b, 0)),
        _ => None,
    }
}

/// Two values compare as `Equal` exactly when they are structurally
/// equal.
pub proof fn lemma_value_cmp_eq(x: Value, y: Value)
    ensures
        spec_value_cmp(x, y) == Some(Ordering::Equal) <==> spec_value_eq(x, y),
{
    match (x, y) {
        (Value::IntSeq(a), Value::IntSeq(b)) => {
            lemma_seq_cmp_eq(a@, b@, 0);
        },
        _ => {},
    }
}

proof fn lemma_seq_cmp_eq(a: Seq<i64>, b: Seq<i64>, i: int)
    requires
        0 <= i <= a.len(),
        0 <= i <= b.len(),
        forall|k: int| 0 <= k < i ==> a[k] == b[k],
    ensures
        spec_seq_cmp(a, b, i) == Ordering::Equal <==> a == b,
    decreases a.len() + b.len() - 2 * i,
{
    if i >= a.len() && i >= b.len() {
        if a.len() == b.len() {
            assert(a =~= b);
        }
    } else if i >= a.len() || i >= b.len() {
        assert(a.len() != b.len());
        assert(a != b);
    } else if a[i] == b[i] {
        lemma_seq_cmp_eq(a, b, i + 1);
    } else {
        assert(a != b);
    }
}

// ===========================================================================
// Equality of instances: the meaning of the generated equality body.
// ===========================================================================

/// The field-by-field conjunction from field `i` on, with the generated
/// `&&` chain's left-to-right short-circuit: an ignored field contributes
/// no term; a custom comparison function, when reached, leaves the model
/// (`None`); otherwise the first unequal field decides.
pub open spec fn spec_eq_fields(
    fields: Seq<ast::Field>,
    xs: Seq<Value>,
    ys: Seq<Value>,
    i: int,
) -> Option<bool>
    decreases fields.len() - i,
{
    if i < 0 || i >= fields.len() {
        Some(true)
    } else if fields[i].attrs@.partial_eq.ignore {
        spec_eq_fields(fields, xs, ys, i + 1)
    } else if fields[i].attrs@.partial_eq.with is Some {
        None
    } else if !spec_value_eq(xs[i], ys[i]) {
        Some(false)
    } else {
        spec_eq_fields(fields, xs, ys, i + 1)
    }
}

/// The meaning of the generated equality body: on an enum both instances
/// must inhabit the same variant before any field is compared; within one
/// variant the non-ignored fields are compared in declaration order.
pub open spec fn spec_eq_eval(input: ast::Input, x: Instance, y: Instance) -> Option<bool> {
    match input.body {
        Body::Enum(..) => if x.variant != y.variant {
            Some(false)
        } else {
            spec_eq_fields(spec_inst_fields(input, x), x.fields@, y.fields@, 0)
        },
        Body::Struct(..) => spec_eq_fields(spec_inst_fields(input, x), x.fields@, y.fields@, 0),
    }
}

fn eq_fields(fields: &Vec<ast::Field>, xs: &Vec<Value>, ys: &Vec<Value>, i: usize) -> (r: Option<
    bool,
>)
    requires
        xs@.len() == fields@.len(),
        ys@.len() == fields@.len(),
        i <= fields@.len(),
    ensures
        r == spec_eq_fields(fields@, xs@, ys@, i as int),
    decreases fields@.len() - i,
{
    if i == fields.len() {
        Some(true)
    } else if fields[i].attrs.partial_eq.ignore {
        eq_fields(fields, xs, ys, i + 1)
    } else if fields[i].attrs.partial_eq.with.is_some() {
        None
    } else if !value_eq(&xs[i], &ys[i]) {
        Some(false)
    } else {
        eq_fields(fields, xs, ys, i + 1)
    }
}

/// Evaluates the generated equality on two instances of the declaration.
/// `None` exactly when a custom comparison function would have been
/// called.
pub fn eval_eq(input: &ast::Input, x: &Instance, y: &Instance) -> (r: Option<bool>)
    requires
        inst_wf(*input, *x),
        inst_wf(*input, *y),
    ensures
        r == spec_eq_eval(*input, *x, *y),
{
    match &input.body {
        Body::Enum(vs) => {
            if x.variant != y.variant {
                Some(false)
            } else {
                eq_fields(&vs[x.variant].fields, &x.fields, &y.fields, 0)
            }
        },
        Body::Struct(_, fs) => eq_fields(fs, &x.fields, &y.fields, 0),
    }
}

// ===========================================================================
// Ordering of instances: the meaning of the generated ordering body.
// ===========================================================================

/// Which per-field section drives an ordering evaluation.
#[derive(Clone, Copy, Debug, PartialEq, Eq, Structural)]
pub enum OrdKind {
    /// The `PartialOrd` section.
    Partial,
    /// The `Ord` section.
    Total,
}

/// The ordering section of a field for the chosen kind.
pub open spec fn spec_ord_section(f: ast::Field, kind: OrdKind) -> crate::attr::FieldSectionV {
    match kind {
        OrdKind::Partial => f.attrs@.partial_ord,
        OrdKind::Total => f.attrs@.ord,
    }
}

/// The lexicographic tie-break from field `i` on, exactly as the
/// generated right-to-left fold evaluates: the first non-ignored field
/// whose comparison is not `Equal` decides, later fields are never
/// reached. A custom comparison function, when reached, leaves the model.
pub open spec fn spec_cmp_fields(
    fields: Seq<ast::Field>,
    xs: Seq<Value>,
    ys: Seq<Value>,
    i: int,
    kind: OrdKind,
) -> Option<Option<Ordering>>
    decreases fields.len() - i,
{
    if i < 0 || i >= fields.len() {
        Some(Some(Ordering::Equal))
    } else if spec_ord_section(fields[i], kind).ignore {
        spec_cmp_fields(fields, xs, ys, i + 1, kind)
    } else if spec_ord_section(fields[i], kind).with is Some {
        None
    } else {
        match spec_value_cmp(xs[i], ys[i]) {
            Some(Ordering::Equal) => spec_cmp_fields(fields, xs, ys, i + 1, kind),
            other => Some(other),
        }
    }
}

/// The meaning of the generated ordering body: the variant tag is
/// compared first, by declaration order — an earlier variant is smaller
/// than a later one whatever the payloads — and only two instances of the
/// same variant go on to the lexicographic field tie-break.
pub open spec fn spec_cmp_eval(input: ast::Input, x: Instance, y: Instance, kind: OrdKind) -> Option<
    Option<Ordering>,
> {
    match input.body {
        Body::Enum(..) => if x.variant < y.variant {
            Some(Some(Ordering::Less))
        } else if x.variant > y.variant {
            Some(Some(Ordering::Greater))
        } else {
            spec_cmp_fields(spec_inst_fields(input, x), x.fields@, y.fields@, 0, kind)
        },
        Body::Struct(..) => spec_cmp_fields(
            spec_inst_fields(input, x),
            x.fields@,
            y.fields@,
            0,
            kind,
        ),
    }
}

fn cmp_fields(
    fields: &Vec<ast::Field>,
    xs: &Vec<Value>,
    ys: &Vec<Value>,
    i: usize,
    kind: OrdKind,
) -> (r: Option<Option<Ordering>>)
    requires
        xs@.len() == fields@.len(),
        ys@.len() == fields@.len(),
        i <= fields@.len(),
    ensures
        r == spec_cmp_fields(fields@, xs@, ys@, i as int, kind),
    decreases fields@.len() - i,
{
    if i == fields.len() {
        return Some(Some(Ordering::Equal));
    }
    let sec = match kind {
        OrdKind::Partial => &fields[i].attrs.partial_ord,
        OrdKind::Total => &fields[i].attrs.ord,
    };
    if sec.ignore {
        cmp_fields(fields, xs, ys, i + 1, kind)
    } else if sec.with.is_some() {
        None
    } else {
        match value_cmp(&xs[i], &ys[i]) {
            Some(Ordering::Equal) => cmp_fields(fields, xs, ys, i + 1, kind),
            other => Some(other),
        }
    }
}

/// Evaluates the generated ordering on two instances of the declaration.
/// `None` exactly when a custom comparison function would have been
/// called.
pub fn eval_cmp(input: &ast::Input, x: &Instance, y: &Instance, kind: OrdKind) -> (r: Option<
    Option<Ordering>,
>)
    requires
        inst_wf(*input, *x),
        inst_wf(*input, *y),
    ensures
        r == spec_cmp_eval(*input, *x, *y, kind),
{
    match &input.body {
        Body::Enum(vs) => {
            if x.variant < y.variant {
                Some(Some(Ordering::Less))
            } else if x.variant > y.variant {
                Some(Some(Ordering::Greater))
            } else {
                cmp_fields(&vs[x.variant].fields, &x.fields, &y.fields, 0, kind)
            }
        },
        Body::Struct(_, fs) => cmp_fields(fs, &x.fields, &y.fields, 0, kind),
    }
}

// ===========================================================================
// Laws of the comparison semantics.
// ===========================================================================

/// No field of the list carries a custom equality function unless it is
/// ignored.
pub open spec fn no_custom_eq(fields: Seq<ast::Field>) -> bool {
    forall|i: int|
        0 <= i < fields.len() ==> ((#[trigger] fields[i]).attrs@.partial_eq.ignore
            || fields[i].attrs@.partial_eq.with is None)
}

proof fn lemma_eq_fields_refl(fields: Seq<ast::Field>, xs: Seq<Value>, i: int)
    requires
        no_custom_eq(fields),
        0 <= i <= fields.len(),
        xs.len() == fields.len(),
    ensures
        spec_eq_fields(fields, xs, xs, i) == Some(true),
    decreases fields.len() - i,
{
    if i < fields.len() {
        lemma_eq_fields_refl(fields, xs, i + 1);
    }
}

/// Equality reflexivity: comparing any well-formed instance with itself
/// yields `true`, whenever its variant's fields use no custom equality
/// function (a custom function leaves the model and may not be
/// reflexive).
pub proof fn lemma_eq_reflexive(input: ast::Input, x: Instance)
    requires
        inst_wf(input, x),
        no_custom_eq(spec_inst_fields(input, x)),
    ensures
        spec_eq_eval(input, x, x) == Some(true),
{
    lemma_eq_fields_refl(spec_inst_fields(input, x), x.fields@, 0);
}

proof fn lemma_eq_fields_sym(fields: Seq<ast::Field>, xs: Seq<Value>, ys: Seq<Value>, i: int)
    requires
        0 <= i <= fields.len(),
        xs.len() == fields.len(),
        ys.len() == fields.len(),
    ensures
        spec_eq_fields(fields, xs, ys, i) == spec_eq_fields(fields, ys, xs, i),
    decreases fields.len() - i,
{
    if i < fields.len() {
        lemma_eq_fields_sym(fields, xs, ys, i + 1);
    }
}

/// Equality symmetry: the generated equality gives the same answer in
/// both directions, custom comparison functions included (both directions
/// leave the model at the same field).
pub proof fn lemma_eq_symmetric(input: ast::Input, x: Instance, y: Instance)
    requires
        inst_wf(input, x),
        inst_wf(input, y),
    ensures
        spec_eq_eval(input, x, y) == spec_eq_eval(input, y, x),
{
    if x.variant == y.variant {
        lemma_eq_fields_sym(spec_inst_fields(input, x), x.fields@, y.fields@, 0);
    }
}

/// Whether the ordering configuration of every field agrees with its
/// equality configuration: same ignore flag, and no custom function on
/// either side.
pub open spec fn ord_matches_eq(fields: Seq<ast::Field>, kind: OrdKind) -> bool {
    forall|i: int|
        0 <= i < fields.len() ==> {
            &&& spec_ord_section(#[trigger] fields[i], kind).ignore == fields[
                i
            ].attrs@.partial_eq.ignore
            &&& spec_ord_section(fields[i], kind).with is None
            &&& fields[i].attrs@.partial_eq.with is None
        }
}

proof fn lemma_cmp_fields_equal(
    fields: Seq<ast::Field>,
    xs: Seq<Value>,
    ys: Seq<Value>,
    i: int,
    kind: OrdKind,
)
    requires
        0 <= i <= fields.len(),
        xs.len() == fields.len(),
        ys.len() == fields.len(),
        ord_matches_eq(fields, kind),
        spec_eq_fields(fields, xs, ys, i) == Some(true),
    ensures
        spec_cmp_fields(fields, xs, ys, i, kind) == Some(Some(Ordering::Equal)),
    decreases fields.len() - i,
{
    if i < fields.len() {
        if fields[i].attrs@.partial_eq.ignore {
            lemma_cmp_fields_equal(fields, xs, ys, i + 1, kind);
        } else {
            assert(spec_value_eq(xs[i], ys[i]));
            lemma_value_cmp_eq(xs[i], ys[i]);
            lemma_cmp_fields_equal(fields, xs, ys, i + 1, kind);
        }
    }
}

/// Ordering consistency with equality: whenever the generated equality
/// answers `true` and the ordering configuration agrees with the equality
/// configuration, the generated ordering answers `Equal`. With a field
/// ignored for one trait but not the other the two relations genuinely
/// diverge, so such configurations are excluded.
pub proof fn lemma_eq_implies_cmp_equal(input: ast::Input, x: Instance, y: Instance, kind: OrdKind)
    requires
        inst_wf(input, x),
        inst_wf(input, y),
        ord_matches_eq(spec_inst_fields(input, x), kind),
        spec_eq_eval(input, x, y) == Some(true),
    ensures
        spec_cmp_eval(input, x, y, kind) == Some(Some(Ordering::Equal)),
{
    match input.body {
        Body::Enum(..) => {
            assert(x.variant == y.variant);
            lemma_cmp_fields_equal(spec_inst_fields(input, x), x.fields@, y.fields@, 0, kind);
        },
        Body::Struct(..) => {
            lemma_cmp_fields_equal(spec_inst_fields(input, x), x.fields@, y.fields@, 0, kind);
        },
    }
}

/// Enum instances in different variants order strictly by declaration
/// index, whatever their payloads hold.
pub proof fn lemma_cmp_variant_order(input: ast::Input, x: Instance, y: Instance, kind: OrdKind)
    requires
        inst_wf(input, x),
        inst_wf(input, y),
        input.body is Enum,
        x.variant != y.variant,
    ensures
        x.variant < y.variant ==> spec_cmp_eval(input, x, y, kind) == Some(Some(Ordering::Less)),
        x.variant > y.variant ==> spec_cmp_eval(input, x, y, kind) == Some(
            Some(Ordering::Greater),
        ),
{
}

proof fn lemma_eq_fields_skip_ignored(
    fields: Seq<ast::Field>,
    xs: Seq<Value>,
    xs2: Seq<Value>,
    ys: Seq<Value>,
    j: int,
    i: int,
)
    requires
        0 <= i <= fields.len(),
        xs.len() == fields.len(),
        xs2.len() == fields.len(),
        ys.len() == fields.len(),
        0 <= j < fields.len(),
        fields[j].attrs@.partial_eq.ignore,
        forall|k: int| 0 <= k < fields.len() && k != j ==> xs[k] == xs2[k],
    ensures
        spec_eq_fields(fields, xs, ys, i) == spec_eq_fields(fields, xs2, ys, i),
    decreases fields.len() - i,
{
    if i < fields.len() {
        lemma_eq_fields_skip_ignored(fields, xs, xs2, ys, j, i + 1);
    }
}

/// Ignore idempotence for equality: a field ignored for equality has no
/// influence on the generated equality's answer — changing that field's
/// value in one instance changes nothing.
pub proof fn lemma_eq_ignores_field(
    input: ast::Input,
    x: Instance,
    x2: Instance,
    y: Instance,
    j: int,
)
    requires
        inst_wf(input, x),
        inst_wf(input, x2),
        inst_wf(input, y),
        x2.variant == x.variant,
        0 <= j < spec_inst_fields(input, x).len(),
        spec_inst_fields(input, x)[j].attrs@.partial_eq.ignore,
        forall|k: int|
            0 <= k < x.fields@.len() && k != j ==> x.fields@[k] == x2.fields@[k],
    ensures
        spec_eq_eval(input, x, y) == spec_eq_eval(input, x2, y),
{
    if x.variant == y.variant {
        lemma_eq_fields_skip_ignored(
            spec_inst_fields(input, x),
            x.fields@,
            x2.fields@,
            y.fields@,
            j,
            0,
        );
    }
}


// ===========================================================================
// Hashing: the trace of hashed atoms.
// ===========================================================================

/// The atoms one value contributes to the hasher: an integer as itself, a
/// marker as zero, a sequence as its length followed by its elements.
pub open spec fn spec_hash_value(v: Value) -> Seq<i64> {
    match v {
        Value::Int(n) => seq![n],
        Value::Marker => seq![0i64],
        Value::IntSeq(s) => seq![s@.len() as i64] + s@,
    }
}

/// Computes the atoms one value feeds to the hasher.
pub fn hash_value(v: &Value) -> (r: Vec<i64>)
    ensures
        r@ == spec_hash_value(*v),
{
    let mut out: Vec<i64> = Vec::new();
    match v {
        Value::Int(n) => {
            out.push(*n);
            assert(out@ =~= spec_hash_value(*v));
        },
        Value::Marker => {
            out.push(0i64);
            assert(out@ =~= spec_hash_value(*v));
        },
        Value::IntSeq(s) => {
            out.push(#[verifier::truncate] (s.len() as i64));
            let mut i: usize = 0;
            while i < s.len()
                invariant
                    i <= s@.len(),
                    out@ =~= seq![s@.len() as i64] + s@.subrange(0, i as int),
                decreases s@.len() - i,
            {
                out.push(s[i]);
                i += 1;
                proof {
                    assert(out@ =~= seq![s@.len() as i64] + s@.subrange(0, i as int));
                }
            }
            proof {
                assert(s@.subrange(0, s@.len() as int) =~= s@);
                assert(out@ =~= spec_hash_value(*v));
            }
        },
    }
    out
}

/// The hash contributions of the fields from `i` on, in declaration
/// order: an ignored field contributes nothing; a custom hashing function
/// leaves the model.
pub open spec fn spec_hash_fields(fields: Seq<ast::Field>, xs: Seq<Value>, i: int) -> Option<
    Seq<i64>,
>
    decreases fields.len() - i,
{
    if i < 0 || i >= fields.len() {
        Some(Seq::empty())
    } else if fields[i].attrs@.hash.ignore {
        spec_hash_fields(fields, xs, i + 1)
    } else if fields[i].attrs@.hash.with is Some {
        None
    } else {
        match spec_hash_fields(fields, xs, i + 1) {
            None => None,
            Some(t) => Some(spec_hash_value(xs[i]) + t),
        }
    }
}

/// The meaning of the generated hash body: the discriminant first for an
/// enum, then each non-ignored field's contribution in declaration order
/// — hash quality depends on that order, so it is part of the contract.
pub open spec fn spec_hash_eval(input: ast::Input, x: Instance) -> Option<Seq<i64>> {
    match spec_hash_fields(spec_inst_fields(input, x), x.fields@, 0) {
        None => None,
        Some(t) => match input.body {
            Body::Enum(..) => Some(seq![x.variant as i64] + t),
            Body::Struct(..) => Some(t),
        },
    }
}

fn hash_fields(fields: &Vec<ast::Field>, xs: &Vec<Value>, i: usize) -> (r: Option<Vec<i64>>)
    requires
        xs@.len() == fields@.len(),
        i <= fields@.len(),
    ensures
        match r {
            Some(v) => spec_hash_fields(fields@, xs@, i as int) == Some(v@),
            None => spec_hash_fields(fields@, xs@, i as int) is None,
        },
    decreases fields@.len() - i,
{
    if i == fields.len() {
        let v: Vec<i64> = Vec::new();
        assert(v@ =~= Seq::<i64>::empty());
        Some(v)
    } else if fields[i].attrs.hash.ignore {
        hash_fields(fields, xs, i + 1)
    } else if fields[i].attrs.hash.with.is_some() {
        None
    } else {
        match hash_fields(fields, xs, i + 1) {
            None => None,
            Some(mut t) => {
                let mut h = hash_value(&xs[i]);
                h.append(&mut t);
                Some(h)
            },
        }
    }
}

/// Evaluates the generated hash body on one instance, as the sequence of
/// atoms fed to the hasher. `None` exactly when a custom hashing function
/// would have been called.
pub fn eval_hash(input: &ast::Input, x: &Instance) -> (r: Option<Vec<i64>>)
    requires
        inst_wf(*input, *x),
    ensures
        match r {
            Some(v) => spec_hash_eval(*input, *x) == Some(v@),
            None => spec_hash_eval(*input, *x) is None,
        },
{
    let inner = match &input.body {
        Body::Enum(vs) => hash_fields(&vs[x.variant].fields, &x.fields, 0),
        Body::Struct(_, fs) => hash_fields(fs, &x.fields, 0),
    };
    match inner {
        None => None,
        Some(mut t) => {
            match &input.body {
                Body::Enum(..) => {
                    let mut out: Vec<i64> = Vec::new();
                    out.push(#[verifier::truncate] (x.variant as i64));
                    out.append(&mut t);
                    assert(out@ =~= seq![x.variant as i64] + spec_hash_eval(*input, *x)->0.subrange(
                        1,
                        spec_hash_eval(*input, *x)->0.len() as int,
                    )) by {
                        assert(spec_hash_fields(spec_inst_fields(*input, *x), x.fields@, 0)
                            is Some);
                    }
                    Some(out)
                },
                Body::Struct(..) => Some(t),
            }
        },
    }
}

proof fn lemma_cmp_fields_skip_ignored(
    fields: Seq<ast::Field>,
    xs: Seq<Value>,
    xs2: Seq<Value>,
    ys: Seq<Value>,
    j: int,
    i: int,
    kind: OrdKind,
)
    requires
        0 <= i <= fields.len(),
        xs.len() == fields.len(),
        xs2.len() == fields.len(),
        ys.len() == fields.len(),
        0 <= j < fields.len(),
        spec_ord_section(fields[j], kind).ignore,
        forall|k: int| 0 <= k < fields.len() && k != j ==> xs[k] == xs2[k],
    ensures
        spec_cmp_fields(fields, xs, ys, i, kind) == spec_cmp_fields(fields, xs2, ys, i, kind),
    decreases fields.len() - i,
{
    if i < fields.len() {
        lemma_cmp_fields_skip_ignored(fields, xs, xs2, ys, j, i + 1, kind);
    }
}

/// Ignore idempotence for ordering: a field ignored for ordering has no
/// influence on the generated comparison's answer.
pub proof fn lemma_cmp_ignores_field(
    input: ast::Input,
    x: Instance,
    x2: Instance,
    y: Instance,
    j: int,
    kind: OrdKind,
)
    requires
        inst_wf(input, x),
        inst_wf(input, x2),
        inst_wf(input, y),
        x2.variant == x.variant,
        0 <= j < spec_inst_fields(input, x).len(),
        spec_ord_section(spec_inst_fields(input, x)[j], kind).ignore,
        forall|k: int| 0 <= k < x.fields@.len() && k != j ==> x.fields@[k] == x2.fields@[k],
    ensures
        spec_cmp_eval(input, x, y, kind) == spec_cmp_eval(input, x2, y, kind),
{
    if x.variant == y.variant {
        lemma_cmp_fields_skip_ignored(
            spec_inst_fields(input, x),
            x.fields@,
            x2.fields@,
            y.fields@,
            j,
            0,
            kind,
        );
    }
}

/// Ignore idempotence for hashing: a field ignored for hashing has no
/// influence on the hash trace.
pub proof fn lemma_hash_ignores_field(input: ast::Input, x: Instance, x2: Instance, j: int)
    requires
        inst_wf(input, x),
        inst_wf(input, x2),
        x2.variant == x.variant,
        0 <= j < spec_inst_fields(input, x).len(),
        spec_inst_fields(input, x)[j].attrs@.hash.ignore,
        forall|k: int| 0 <= k < x.fields@.len() && k != j ==> x.fields@[k] == x2.fields@[k],
    ensures
        spec_hash_eval(input, x) == spec_hash_eval(input, x2),
{
    lemma_hash_fields_skip_ignored(
        spec_inst_fields(input, x),
        x.fields@,
        x2.fields@,
        j,
        0,
    );
}

proof fn lemma_hash_fields_skip_ignored(
    fields: Seq<ast::Field>,
    xs: Seq<Value>,
    xs2: Seq<Value>,
    j: int,
    i: int,
)
    requires
        0 <= i <= fields.len(),
        xs.len() == fields.len(),
        xs2.len() == fields.len(),
        0 <= j < fields.len(),
        fields[j].attrs@.hash.ignore,
        forall|k: int| 0 <= k < fields.len() && k != j ==> xs[k] == xs2[k],
    ensures
        spec_hash_fields(fields, xs, i) == spec_hash_fields(fields, xs2, i),
    decreases fields.len() - i,
{
    if i < fields.len() {
        lemma_hash_fields_skip_ignored(fields, xs, xs2, j, i + 1);
    }
}

/// The discriminant-only fast path on an all-unit enum agrees with the
/// general field-by-field path: equality is exactly equality of the
/// variant tags.
pub proof fn lemma_trivial_enum_eq(input: ast::Input, x: Instance, y: Instance)
    requires
        inst_wf(input, x),
        inst_wf(input, y),
        ast::spec_is_trivial_enum(input.body),
        input.body is Enum,
    ensures
        spec_eq_eval(input, x, y) == Some(x.variant == y.variant),
{
}

/// The discriminant-only fast path on an all-unit enum agrees with the
/// general path for ordering too: the tags alone decide.
pub proof fn lemma_trivial_enum_cmp(input: ast::Input, x: Instance, y: Instance, kind: OrdKind)
    requires
        inst_wf(input, x),
        inst_wf(input, y),
        ast::spec_is_trivial_enum(input.body),
        input.body is Enum,
    ensures
        spec_cmp_eval(input, x, y, kind) == Some(
            Some(
                if x.variant < y.variant {
                    Ordering::Less
                } else if x.variant > y.variant {
                    Ordering::Greater
                } else {
                    Ordering::Equal
                },
            ),
        ),
{
}


// ===========================================================================
// Debug formatting.
// ===========================================================================

/// The items a sequence value displays: every element, or, when a
/// display range `a..b` keeps fewer elements than the sequence holds, the
/// first `a` elements, an elision mark (`None`), and the last `b`
/// elements.
pub open spec fn spec_display_items(s: Seq<i64>, range: Option<(int, int)>) -> Seq<Option<i64>> {
    match range {
        Some((a, b)) => if 0 <= a && 0 <= b && a + b < s.len() {
            s.subrange(0, a).map_values(|n: i64| Some(n)) + seq![None::<i64>] + s.subrange(
                s.len() - b,
                s.len() as int,
            ).map_values(|n: i64| Some(n))
        } else {
            s.map_values(|n: i64| Some(n))
        },
        None => s.map_values(|n: i64| Some(n)),
    }
}

/// The comma-joined display items, appended to `acc`: a number as its
/// decimal text, an elision as `..`.
pub open spec fn spec_fmt_items(items: Seq<Option<i64>>, i: int, acc: Seq<char>) -> Seq<char>
    decreases items.len() - i,
{
    if i < 0 || i >= items.len() {
        acc
    } else {
        let piece = if i == 0 {
            Seq::<char>::empty()
        } else {
            ", "@
        } + (match items[i] {
            Some(n) => spec_dec_signed(n as int),
            None => ".."@,
        });
        spec_fmt_items(items, i + 1, acc + piece)
    }
}

/// The display text of one value under an optional display range.
pub open spec fn spec_fmt_value(v: Value, range: Option<(int, int)>) -> Seq<char> {
    match v {
        Value::Int(n) => spec_dec_signed(n as int),
        Value::Marker => "PhantomData"@,
        Value::IntSeq(s) => "["@ + spec_fmt_items(spec_display_items(s@, range), 0, Seq::empty())
            + "]"@,
    }
}

fn display_items(s: &Vec<i64>, range: Option<(u64, u64)>) -> (r: Vec<Option<i64>>)
    ensures
        r@ == spec_display_items(
            s@,
            match range {
                Some((a, b)) => Some((a as int, b as int)),
                None => None,
            },
        ),
{
    let ghost rv: Option<(int, int)> = match range {
        Some((a, b)) => Some((a as int, b as int)),
        None => None,
    };
    let mut out: Vec<Option<i64>> = Vec::new();
    let elide = match range {
        Some((a, b)) => a < usize::MAX as u64 && b < usize::MAX as u64 && (a as usize) <= s.len()
            && (b as usize) < s.len() - (a as usize),
        None => false,
    };
    if elide {
        let (a, b) = match range {
            Some((a, b)) => (a as usize, b as usize),
            None => (0, 0),
        };
        let mut i: usize = 0;
        while i < a
            invariant
                i <= a,
                a <= s@.len(),
                out@ =~= s@.subrange(0, i as int).map_values(|n: i64| Some(n)),
            decreases a - i,
        {
            out.push(Some(s[i]));
            i += 1;
            proof {
                assert(out@ =~= s@.subrange(0, i as int).map_values(|n: i64| Some(n)));
            }
        }
        out.push(None);
        let ghost mid = out@;
        let mut j: usize = s.len() - b;
        while j < s.len()
            invariant
                s@.len() - b <= j <= s@.len(),
                b <= s@.len(),
                out@ =~= mid + s@.subrange(s@.len() - b, j as int).map_values(|n: i64| Some(n)),
            decreases s@.len() - j,
        {
            out.push(Some(s[j]));
            j += 1;
            proof {
                assert(out@ =~= mid + s@.subrange(s@.len() - b, j as int).map_values(
                    |n: i64| Some(n),
                ));
            }
        }
        proof {
            assert(out@ =~= spec_display_items(s@, rv));
        }
    } else {
        let mut i: usize = 0;
        while i < s.len()
            invariant
                i <= s@.len(),
                out@ =~= s@.subrange(0, i as int).map_values(|n: i64| Some(n)),
            decreases s@.len() - i,
        {
            out.push(Some(s[i]));
            i += 1;
            proof {
                assert(out@ =~= s@.subrange(0, i as int).map_values(|n: i64| Some(n)));
            }
        }
        proof {
            assert(s@.subrange(0, s@.len() as int) =~= s@);
            assert(out@ =~= spec_display_items(s@, rv));
        }
    }
    out
}

/// Formats one value under an optional display range.
pub fn fmt_value(v: &Value, range: Option<(u64, u64)>) -> (r: String)
    ensures
        r@ == spec_fmt_value(
            *v,
            match range {
                Some((a, b)) => Some((a as int, b as int)),
                None => None,
            },
        ),
{
    let ghost rv: Option<(int, int)> = match range {
        Some((a, b)) => Some((a as int, b as int)),
        None => None,
    };
    match v {
        Value::Int(n) => {
            let mut out = String::new();
            append_i64(&mut out, *n);
            assert(out@ =~= spec_fmt_value(*v, rv));
            out
        },
        Value::Marker => String::from_str("PhantomData"),
        Value::IntSeq(s) => {
            let items = display_items(s, range);
            let ghost iv = items@;
            let mut out = String::from_str("[");
            let mut i: usize = 0;
            while i < items.len()
                invariant
                    i <= iv.len(),
                    iv == items@,
                    spec_fmt_items(iv, i as int, out@) == spec_fmt_items(iv, 0, "["@),
                decreases iv.len() - i,
            {
                let ghost before = out@;
                if i > 0 {
                    out.append(", ");
                }
                match &items[i] {
                    Some(n) => append_i64(&mut out, *n),
                    None => out.append(".."),
                }
                proof {
                    let piece = if i == 0 {
                        Seq::<char>::empty()
                    } else {
                        ", "@
                    } + (match iv[i as int] {
                        Some(n) => spec_dec_signed(n as int),
                        None => ".."@,
                    });
                    assert(out@ =~= before + piece);
                }
                i += 1;
            }
            out.append("]");
            proof {
                lemma_fmt_items_acc_from(iv, 0, "["@);
                assert(out@ =~= spec_fmt_value(*v, rv));
            }
            out
        },
    }
}

/// Formatting into a nonempty accumulator prepends the accumulator.
proof fn lemma_fmt_items_acc_from(items: Seq<Option<i64>>, i: int, acc: Seq<char>)
    requires
        0 <= i,
    ensures
        spec_fmt_items(items, i, acc) == acc + spec_fmt_items(items, i, Seq::empty()),
    decreases items.len() - i,
{
    if i >= items.len() {
        assert(spec_fmt_items(items, i, acc) =~= acc + spec_fmt_items(items, i, Seq::empty()));
    } else {
        let piece = if i == 0 {
            Seq::<char>::empty()
        } else {
            ", "@
        } + (match items[i] {
            Some(n) => spec_dec_signed(n as int),
            None => ".."@,
        });
        lemma_fmt_items_acc_from(items, i + 1, acc + piece);
        lemma_fmt_items_acc_from(items, i + 1, Seq::<char>::empty() + piece);
        assert(acc + (Seq::<char>::empty() + piece) =~= (acc + piece));
        assert(acc + ((Seq::<char>::empty() + piece) + spec_fmt_items(items, i + 1, Seq::empty()))
            =~= (acc + piece) + spec_fmt_items(items, i + 1, Seq::empty()));
    }
}

/// The formatted pieces of the shown fields from `i` on: the text of
/// each non-ignored field, with its name and a colon under a named
/// layout. A custom formatting function, when reached, leaves the model.
pub open spec fn spec_fmt_pieces(
    fields: Seq<ast::Field>,
    xs: Seq<Value>,
    i: int,
    named: bool,
) -> Option<Seq<Seq<char>>>
    decreases fields.len() - i,
{
    if i < 0 || i >= fields.len() {
        Some(Seq::empty())
    } else if fields[i].attrs@.debug.ignore {
        spec_fmt_pieces(fields, xs, i + 1, named)
    } else if fields[i].attrs@.debug.with is Some {
        None
    } else {
        let piece = if named {
            (match fields[i].ident {
                Some(n) => n@,
                None => Seq::empty(),
            }) + ": "@ + spec_fmt_value(xs[i], fields[i].attrs@.debug.range)
        } else {
            spec_fmt_value(xs[i], fields[i].attrs@.debug.range)
        };
        match spec_fmt_pieces(fields, xs, i + 1, named) {
            None => None,
            Some(t) => Some(seq![piece] + t),
        }
    }
}

/// The comma-joined pieces, appended to `acc`.
pub open spec fn spec_join_fmt(ps: Seq<Seq<char>>, i: int, acc: Seq<char>) -> Seq<char>
    decreases ps.len() - i,
{
    if i < 0 || i >= ps.len() {
        acc
    } else {
        let piece = if i == 0 {
            ps[i]
        } else {
            ", "@ + ps[i]
        };
        spec_join_fmt(ps, i + 1, acc + piece)
    }
}

/// The name an instance displays under: the variant name for an enum,
/// the type name for a struct.
pub open spec fn spec_fmt_name(input: ast::Input, x: Instance) -> Seq<char> {
    match input.body {
        Body::Enum(vs) => vs@[x.variant as int].ident@,
        Body::Struct(..) => input.ident@,
    }
}

/// Whether the arm an instance inhabits formats transparently: the
/// variant's own directive for an enum, the type-level directive for a
/// struct.
pub open spec fn spec_fmt_transparent(input: ast::Input, x: Instance) -> bool {
    match input.body {
        Body::Enum(vs) => sec_flag(vs@[x.variant as int].attrs@.debug),
        Body::Struct(..) => sec_flag(input.attrs@.debug),
    }
}

/// The layout of the arm an instance inhabits.
pub open spec fn spec_fmt_style(input: ast::Input, x: Instance) -> Style {
    match input.body {
        Body::Enum(vs) => vs@[x.variant as int].style,
        Body::Struct(style, _) => style,
    }
}

/// The meaning of the generated formatting body. A transparent arm
/// formats as its first field's bare value. Otherwise a named layout
/// shows `Name { field: value, .. }`, a positional or unit layout shows
/// `Name(value, ..)`, and an arm with no shown fields shows the bare
/// name, as the standard builders do.
pub open spec fn spec_fmt_eval(input: ast::Input, x: Instance) -> Option<Seq<char>> {
    let fields = spec_inst_fields(input, x);
    if spec_fmt_transparent(input, x) {
        if fields.len() == 0 {
            Some(Seq::empty())
        } else if fields[0].attrs@.debug.with is Some {
            None
        } else {
            Some(spec_fmt_value(x.fields@[0], fields[0].attrs@.debug.range))
        }
    } else {
        let named = spec_fmt_style(input, x) is Struct;
        match spec_fmt_pieces(fields, x.fields@, 0, named) {
            None => None,
            Some(ps) => if ps.len() == 0 {
                Some(spec_fmt_name(input, x))
            } else if named {
                Some(
                    spec_fmt_name(input, x) + " { "@ + spec_join_fmt(ps, 0, Seq::empty())
                        + " }"@,
                )
            } else {
                Some(spec_fmt_name(input, x) + "("@ + spec_join_fmt(ps, 0, Seq::empty()) + ")"@)
            },
        }
    }
}

fn fmt_pieces(fields: &Vec<ast::Field>, xs: &Vec<Value>, i: usize, named: bool) -> (r: Option<
    Vec<String>,
>)
    requires
        xs@.len() == fields@.len(),
        i <= fields@.len(),
    ensures
        match r {
            Some(v) => spec_fmt_pieces(fields@, xs@, i as int, named) == Some(
                v@.map_values(|s: String| s@),
            ),
            None => spec_fmt_pieces(fields@, xs@, i as int, named) is None,
        },
    decreases fields@.len() - i,
{
    if i == fields.len() {
        let v: Vec<String> = Vec::new();
        assert(v@.map_values(|s: String| s@) =~= Seq::<Seq<char>>::empty());
        Some(v)
    } else if fields[i].attrs.debug.ignore {
        fmt_pieces(fields, xs, i + 1, named)
    } else if fields[i].attrs.debug.with.is_some() {
        None
    } else {
        let mut piece = String::new();
        if named {
            match &fields[i].ident {
                Some(n) => piece.append(n.as_str()),
                None => {},
            }
            piece.append(": ");
        }
        let t = fmt_value(&xs[i], fields[i].attrs.debug_range());
        piece.append(t.as_str());
        proof {
            assert(piece@ =~= (if named {
                (match fields@[i as int].ident {
                    Some(n) => n@,
                    None => Seq::<char>::empty(),
                }) + ": "@ + spec_fmt_value(xs@[i as int], fields@[i as int].attrs@.debug.range)
            } else {
                spec_fmt_value(xs@[i as int], fields@[i as int].attrs@.debug.range)
            }));
        }
        match fmt_pieces(fields, xs, i + 1, named) {
            None => None,
            Some(mut t) => {
                let ghost pre = t@;
                t.insert(0, piece);
                proof {
                    assert(t@ =~= seq![piece] + pre);
                    assert(t@.map_values(|s: String| s@) =~= seq![piece@] + pre.map_values(
                        |s: String| s@,
                    ));
                }
                Some(t)
            },
        }
    }
}

/// Evaluates the generated formatting body on one instance. `None`
/// exactly when a custom formatting function would have been called.
pub fn eval_fmt(input: &ast::Input, x: &Instance) -> (r: Option<String>)
    requires
        inst_wf(*input, *x),
    ensures
        match r {
            Some(s) => spec_fmt_eval(*input, *x) == Some(s@),
            None => spec_fmt_eval(*input, *x) is None,
        },
{
    let (fields, name, transparent, style): (&Vec<ast::Field>, &String, bool, Style) =
        match &input.body {
        Body::Enum(vs) => {
            let v = &vs[x.variant];
            (
                &v.fields,
                &v.ident,
                match &v.attrs.debug {
                    Some(s) => s.flag,
                    None => false,
                },
                v.style,
            )
        },
        Body::Struct(style, fs) => (
            fs,
            &input.ident,
            match &input.attrs.debug {
                Some(s) => s.flag,
                None => false,
            },
            *style,
        ),
    };
    if transparent {
        if fields.len() == 0 {
            let r = String::new();
            assert(r@ =~= Seq::<char>::empty());
            return Some(r);
        }
        if fields[0].attrs.debug.with.is_some() {
            return None;
        }
        return Some(fmt_value(&x.fields[0], fields[0].attrs.debug_range()));
    }
    let named = matches!(style, Style::Struct);
    match fmt_pieces(fields, &x.fields, 0, named) {
        None => None,
        Some(ps) => {
            let ghost pv = ps@.map_values(|s: String| s@);
            if ps.len() == 0 {
                return Some(name.clone());
            }
            let mut out = name.clone();
            if named {
                out.append(" { ");
            } else {
                out.append("(");
            }
            let ghost mid = out@;
            let mut i: usize = 0;
            while i < ps.len()
                invariant
                    i <= pv.len(),
                    pv == ps@.map_values(|s: String| s@),
                    spec_join_fmt(pv, i as int, out@) == spec_join_fmt(pv, 0, mid),
                decreases pv.len() - i,
            {
                let ghost before = out@;
                if i > 0 {
                    out.append(", ");
                }
                out.append(ps[i].as_str());
                proof {
                    assert(pv[i as int] == ps@[i as int]@);
                    let piece = if i == 0 {
                        pv[i as int]
                    } else {
                        ", "@ + pv[i as int]
                    };
                    assert(out@ =~= before + piece);
                }
                i += 1;
            }
            if named {
                out.append(" }");
            } else {
                out.append(")");
            }
            proof {
                lemma_join_fmt_acc(pv, mid);
            }
            Some(out)
        },
    }
}

/// Joining into a nonempty accumulator prepends the accumulator.
proof fn lemma_join_fmt_acc(ps: Seq<Seq<char>>, acc: Seq<char>)
    ensures
        spec_join_fmt(ps, 0, acc) == acc + spec_join_fmt(ps, 0, Seq::empty()),
{
    lemma_join_fmt_acc_from(ps, 0, acc);
}

proof fn lemma_join_fmt_acc_from(ps: Seq<Seq<char>>, i: int, acc: Seq<char>)
    requires
        0 <= i,
    ensures
        spec_join_fmt(ps, i, acc) == acc + spec_join_fmt(ps, i, Seq::empty()),
    decreases ps.len() - i,
{
    if i >= ps.len() {
        assert(spec_join_fmt(ps, i, acc) =~= acc + spec_join_fmt(ps, i, Seq::empty()));
    } else {
        let piece = if i == 0 {
            ps[i]
        } else {
            ", "@ + ps[i]
        };
        lemma_join_fmt_acc_from(ps, i + 1, acc + piece);
        lemma_join_fmt_acc_from(ps, i + 1, Seq::<char>::empty() + piece);
        assert(acc + (Seq::<char>::empty() + piece) =~= (acc + piece));
        assert(acc + ((Seq::<char>::empty() + piece) + spec_join_fmt(ps, i + 1, Seq::empty()))
            =~= (acc + piece) + spec_join_fmt(ps, i + 1, Seq::empty()));
    }
}


// ===========================================================================
// Default construction.
// ===========================================================================

/// The mathematical view of a modeled value.
pub enum ValueV {
    Int(int),
    Marker,
    IntSeq(Seq<int>),
}

impl View for Value {
    type V = ValueV;

    open spec fn view(&self) -> ValueV {
        match self {
            Value::Int(n) => ValueV::Int(*n as int),
            Value::Marker => ValueV::Marker,
            Value::IntSeq(s) => ValueV::IntSeq(s@.map_values(|n: i64| n as int)),
        }
    }
}

/// The zero value of a field, decided by the shape of its declared type:
/// a `PhantomData` marker stays a marker, a sequence type is empty,
/// anything else is the integer zero.
pub open spec fn spec_zero_value(ty: ast::TypeRepr) -> ValueV {
    if ty.nodes@.len() == 0 {
        ValueV::Int(0)
    } else {
        match ty.nodes@[ty.nodes@.len() - 1] {
            TypeNode::Path { segs, .. } => if segs@.len() > 0 && (segs@[segs@.len() - 1].ident@
                == "PhantomData"@) {
                ValueV::Marker
            } else if segs@.len() > 0 && segs@[segs@.len() - 1].ident@ == "Vec"@ {
                ValueV::IntSeq(Seq::empty())
            } else {
                ValueV::Int(0)
            },
            TypeNode::Slice { .. } => ValueV::IntSeq(Seq::empty()),
            TypeNode::Array { .. } => ValueV::IntSeq(Seq::empty()),
            _ => ValueV::Int(0),
        }
    }
}

fn zero_value(ty: &ast::TypeRepr) -> (r: Value)
    ensures
        r@ == spec_zero_value(*ty),
{
    if ty.nodes.len() == 0 {
        return Value::Int(0);
    }
    match &ty.nodes[ty.nodes.len() - 1] {
        TypeNode::Path { segs, .. } => {
            if segs.len() > 0 && crate::utils::str_eq(
                segs[segs.len() - 1].ident.as_str(),
                "PhantomData",
            ) {
                Value::Marker
            } else if segs.len() > 0 && crate::utils::str_eq(
                segs[segs.len() - 1].ident.as_str(),
                "Vec",
            ) {
                let v: Vec<i64> = Vec::new();
                let r = Value::IntSeq(v);
                assert(r@ =~= spec_zero_value(*ty)) by {
                    assert(v@.map_values(|n: i64| n as int) =~= Seq::<int>::empty());
                }
                r
            } else {
                Value::Int(0)
            }
        },
        TypeNode::Slice { .. } => {
            let v: Vec<i64> = Vec::new();
            let r = Value::IntSeq(v);
            assert(r@ =~= spec_zero_value(*ty)) by {
                assert(v@.map_values(|n: i64| n as int) =~= Seq::<int>::empty());
            }
            r
        },
        TypeNode::Array { .. } => {
            let v: Vec<i64> = Vec::new();
            let r = Value::IntSeq(v);
            assert(r@ =~= spec_zero_value(*ty)) by {
                assert(v@.map_values(|n: i64| n as int) =~= Seq::<int>::empty());
            }
            r
        },
        _ => Value::Int(0),
    }
}

/// The default value of one field: its `value` override if that is an
/// integer literal the model can evaluate, its type's zero value when
/// there is no override; an override the model cannot evaluate is `None`.
pub open spec fn spec_default_field(f: ast::Field) -> Option<ValueV> {
    match f.attrs@.default.value {
        Some(expr) => match spec_parse_int_lit(expr) {
            Some(n) => Some(ValueV::Int(n)),
            None => None,
        },
        None => Some(spec_zero_value(f.ty)),
    }
}

/// The default values of a field list, in order.
pub open spec fn spec_default_fields(fields: Seq<ast::Field>, i: int) -> Option<Seq<ValueV>>
    decreases fields.len() - i,
{
    if i < 0 || i >= fields.len() {
        Some(Seq::empty())
    } else {
        match spec_default_field(fields[i]) {
            None => None,
            Some(v) => match spec_default_fields(fields, i + 1) {
                None => None,
                Some(t) => Some(seq![v] + t),
            },
        }
    }
}

/// The number of variants carrying the default-variant marker.
pub open spec fn spec_marked_count(vs: Seq<ast::Variant>, i: int) -> int
    decreases vs.len() - i,
{
    if i < 0 || i >= vs.len() {
        0
    } else {
        (if vs[i].attrs@.default is Some {
            1int
        } else {
            0int
        }) + spec_marked_count(vs, i + 1)
    }
}

/// The index of the first variant carrying the default-variant marker.
pub open spec fn spec_first_marked(vs: Seq<ast::Variant>, i: int) -> int
    decreases vs.len() - i,
{
    if i < 0 || i >= vs.len() {
        vs.len() as int
    } else if vs[i].attrs@.default is Some {
        i
    } else {
        spec_first_marked(vs, i + 1)
    }
}

/// The meaning of generated default construction. A struct builds its
/// single variant from each field's override-or-zero value. An enum must
/// carry the default-variant marker on exactly one variant: zero or
/// several markers are a configuration error, never resolved by a
/// first-match heuristic. `Ok(None)` means a field override that the
/// value model cannot evaluate.
pub open spec fn spec_default_eval(input: ast::Input) -> Result<
    Option<(int, Seq<ValueV>)>,
    ConfigErrorV,
> {
    match input.body {
        Body::Struct(_, fs) => match spec_default_fields(fs@, 0) {
            None => Ok(None),
            Some(vals) => Ok(Some((0, vals))),
        },
        Body::Enum(vs) => if spec_marked_count(vs@, 0) != 1 {
            Err(ConfigErrorV::AmbiguousDefaultVariant { span: input.span as int })
        } else {
            let k = spec_first_marked(vs@, 0);
            match spec_default_fields(vs@[k].fields@, 0) {
                None => Ok(None),
                Some(vals) => Ok(Some((k, vals))),
            }
        },
    }
}

fn default_fields(fields: &Vec<ast::Field>, i: usize) -> (r: Option<Vec<Value>>)
    requires
        i <= fields@.len(),
    ensures
        match r {
            Some(v) => spec_default_fields(fields@, i as int) == Some(
                v@.map_values(|x: Value| x@),
            ),
            None => spec_default_fields(fields@, i as int) is None,
        },
    decreases fields@.len() - i,
{
    if i == fields.len() {
        let v: Vec<Value> = Vec::new();
        assert(v@.map_values(|x: Value| x@) =~= Seq::<ValueV>::empty());
        return Some(v);
    }
    let head: Value = match &fields[i].attrs.default.value {
        Some(expr) => {
            match crate::attr::parse_int_lit(expr.as_str()) {
                Some(n) => Value::Int(n),
                None => {
                    return None;
                },
            }
        },
        None => zero_value(&fields[i].ty),
    };
    match default_fields(fields, i + 1) {
        None => None,
        Some(mut t) => {
            let ghost pre = t@;
            t.insert(0, head);
            proof {
                assert(t@ =~= seq![head] + pre);
                assert(t@.map_values(|x: Value| x@) =~= seq![head@] + pre.map_values(
                    |x: Value| x@,
                ));
            }
            Some(t)
        },
    }
}

/// Evaluates generated default construction for a declaration.
pub fn eval_default(input: &ast::Input) -> (r: Result<Option<Instance>, ConfigError>)
    ensures
        match r {
            Ok(Some(inst)) => spec_default_eval(*input) == Ok::<
                Option<(int, Seq<ValueV>)>,
                ConfigErrorV,
            >(Some((inst.variant as int, inst.fields@.map_values(|x: Value| x@))))
                && inst_wf(*input, inst),
            Ok(None) => spec_default_eval(*input) == Ok::<
                Option<(int, Seq<ValueV>)>,
                ConfigErrorV,
            >(None),
            Err(e) => spec_default_eval(*input) == Err::<
                Option<(int, Seq<ValueV>)>,
                ConfigErrorV,
            >(e@),
        },
{
    match &input.body {
        Body::Struct(_, fs) => {
            match default_fields(fs, 0) {
                None => Ok(None),
                Some(vals) => {
                    let inst = Instance { variant: 0, fields: vals };
                    proof {
                        lemma_default_fields_len(fs@, 0);
                    }
                    Ok(Some(inst))
                },
            }
        },
        Body::Enum(vs) => {
            let ghost vsv = vs@;
            let mut count: usize = 0;
            let mut first: usize = vs.len();
            let mut i: usize = 0;
            while i < vs.len()
                invariant
                    i <= vsv.len(),
                    vsv == vs@,
                    count <= i,
                    spec_marked_count(vsv, 0) == count + spec_marked_count(vsv, i as int),
                    count > 0 ==> first < i && vsv[first as int].attrs@.default is Some
                        && spec_first_marked(vsv, 0) == first,
                    count == 0 ==> first == vsv.len() && spec_first_marked(vsv, 0)
                        == spec_first_marked(vsv, i as int),
                decreases vsv.len() - i,
            {
                let marked = vs[i].attrs.default.is_some();
                if marked && count == 0 {
                    first = i;
                }
                if marked {
                    count += 1;
                }
                i += 1;
            }
            if count != 1 {
                return Err(ConfigError::AmbiguousDefaultVariant { span: input.span });
            }
            match default_fields(&vs[first].fields, 0) {
                None => Ok(None),
                Some(vals) => {
                    let inst = Instance { variant: first, fields: vals };
                    proof {
                        lemma_default_fields_len(vs@[first as int].fields@, 0);
                    }
                    Ok(Some(inst))
                },
            }
        },
    }
}

proof fn lemma_default_fields_len(fields: Seq<ast::Field>, i: int)
    requires
        0 <= i <= fields.len(),
    ensures
        spec_default_fields(fields, i) matches Some(vals) ==> vals.len() == fields.len() - i,
    decreases fields.len() - i,
{
    if i < fields.len() {
        lemma_default_fields_len(fields, i + 1);
    }
}

} // verus!
