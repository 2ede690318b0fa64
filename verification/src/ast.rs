//! The normalized model of a type declaration: a struct or enum shape built
//! once from the raw declaration and immutable afterwards, together with the
//! tree representation of each field's declared type expression.

use vstd::prelude::*;

use crate::attr;
use crate::attr::{ConfigError, ConfigErrorV, RawMeta};
use crate::bound::{clone_generics, Generics};

verus! {

/// How the fields of a struct or of one enum variant are laid out.
#[derive(Clone, Copy, Debug, PartialEq, Eq, Structural)]
pub enum Style {
    /// Named fields: `struct S { a: T }`.
    Struct,
    /// Positional fields: `struct S(T);`.
    Tuple,
    /// No fields at all: `struct S;`.
    Unit,
}

/// One segment of a type path, such as `Vec` in `std::vec::Vec<T>`. The
/// generic arguments are indices of nodes in the enclosing [`TypeRepr`]
/// arena.
pub struct PathSeg {
    pub ident: String,
    pub args: Vec<usize>,
}

/// One node of a type-expression tree. Children are identified by their index
/// in the enclosing [`TypeRepr`] arena and always point at strictly smaller
/// indices, so every traversal terminates.
pub enum TypeNode {
    /// A path type such as `T`, `PhantomData<T>` or `::std::vec::Vec<u8>`;
    /// `global` records a leading `::`.
    Path { global: bool, segs: Vec<PathSeg> },
    /// A tuple type `(A, B)`.
    Tuple { elems: Vec<usize> },
    /// A reference type `&T` or `&mut T`.
    Ref { inner: usize },
    /// A raw pointer type `*const T` or `*mut T`.
    Ptr { inner: usize },
    /// A slice type `[T]`.
    Slice { elem: usize },
    /// An array type `[T; n]`.
    Array { elem: usize },
}

/// A type expression, stored as an arena of nodes whose root is the last
/// node. The arena form keeps every recursive traversal structurally
/// decreasing on the node index.
pub struct TypeRepr {
    pub nodes: Vec<TypeNode>,
}

/// The indices of the direct children of one type node.
pub open spec fn node_children(n: TypeNode) -> Seq<usize> {
    match n {
        TypeNode::Path { segs, .. } => Seq::new(segs.len() as nat, |i: int| segs[i].args@).flatten(),
        TypeNode::Tuple { elems } => elems@,
        TypeNode::Ref { inner } => seq![inner],
        TypeNode::Ptr { inner } => seq![inner],
        TypeNode::Slice { elem } => seq![elem],
        TypeNode::Array { elem } => seq![elem],
    }
}

/// Every node's children point at strictly smaller indices, so every
/// traversal of the arena terminates.
pub open spec fn nodes_wf(nodes: Seq<TypeNode>) -> bool {
    forall|i: int, j: int|
        0 <= i < nodes.len() && 0 <= j < node_children(nodes[i]).len() ==> (
        #[trigger] node_children(nodes[i])[j]) < i
}

impl TypeRepr {
    /// The arena is nonempty and well-founded; its last node is the root of
    /// a finite tree.
    pub open spec fn wf(self) -> bool {
        &&& self.nodes.len() > 0
        &&& nodes_wf(self.nodes@)
    }
}

/// The view of a [`PathSeg`].
pub struct PathSegV {
    pub ident: Seq<char>,
    pub args: Seq<int>,
}

/// The view of a [`TypeNode`].
pub enum TypeNodeV {
    Path { global: bool, segs: Seq<PathSegV> },
    Tuple { elems: Seq<int> },
    Ref { inner: int },
    Ptr { inner: int },
    Slice { elem: int },
    Array { elem: int },
}

/// The view of a [`TypeRepr`].
pub struct TypeReprV {
    pub nodes: Seq<TypeNodeV>,
}

impl View for PathSeg {
    type V = PathSegV;

    open spec fn view(&self) -> PathSegV {
        PathSegV { ident: self.ident@, args: self.args@.map_values(|a: usize| a as int) }
    }
}

impl View for TypeNode {
    type V = TypeNodeV;

    open spec fn view(&self) -> TypeNodeV {
        match self {
            TypeNode::Path { global, segs } => TypeNodeV::Path {
                global: *global,
                segs: segs@.map_values(|s: PathSeg| s@),
            },
            TypeNode::Tuple { elems } => TypeNodeV::Tuple {
                elems: elems@.map_values(|a: usize| a as int),
            },
            TypeNode::Ref { inner } => TypeNodeV::Ref { inner: *inner as int },
            TypeNode::Ptr { inner } => TypeNodeV::Ptr { inner: *inner as int },
            TypeNode::Slice { elem } => TypeNodeV::Slice { elem: *elem as int },
            TypeNode::Array { elem } => TypeNodeV::Array { elem: *elem as int },
        }
    }
}

impl View for TypeRepr {
    type V = TypeReprV;

    open spec fn view(&self) -> TypeReprV {
        TypeReprV { nodes: self.nodes@.map_values(|n: TypeNode| n@) }
    }
}

fn clone_usizes(v: &Vec<usize>) -> (r: Vec<usize>)
    ensures
        r@ == v@,
{
    let mut out: Vec<usize> = Vec::new();
    let mut i: usize = 0;
    while i < v.len()
        invariant
            i <= v@.len(),
            out@ =~= v@.subrange(0, i as int),
        decreases v@.len() - i,
    {
        out.push(v[i]);
        i += 1;
        proof {
            assert(out@ =~= v@.subrange(0, i as int));
        }
    }
    proof {
        assert(v@.subrange(0, v@.len() as int) =~= v@);
    }
    out
}

fn clone_node(n: &TypeNode) -> (r: TypeNode)
    ensures
        r@ == n@,
{
    match n {
        TypeNode::Path { global, segs } => {
            let mut out: Vec<PathSeg> = Vec::new();
            let mut i: usize = 0;
            while i < segs.len()
                invariant
                    i <= segs@.len(),
                    out@.len() == i,
                    forall|k: int| 0 <= k < i ==> (#[trigger] out@[k])@ == segs@[k]@,
                decreases segs@.len() - i,
            {
                out.push(PathSeg { ident: segs[i].ident.clone(), args: clone_usizes(&segs[i].args) });
                i += 1;
            }
            let r = TypeNode::Path { global: *global, segs: out };
            assert(out@.map_values(|s: PathSeg| s@) =~= segs@.map_values(|s: PathSeg| s@));
            r
        },
        TypeNode::Tuple { elems } => TypeNode::Tuple { elems: clone_usizes(elems) },
        TypeNode::Ref { inner } => TypeNode::Ref { inner: *inner },
        TypeNode::Ptr { inner } => TypeNode::Ptr { inner: *inner },
        TypeNode::Slice { elem } => TypeNode::Slice { elem: *elem },
        TypeNode::Array { elem } => TypeNode::Array { elem: *elem },
    }
}

/// Copies a type expression; the copy has the same view.
pub fn clone_type_repr(t: &TypeRepr) -> (r: TypeRepr)
    ensures
        r@ == t@,
{
    let mut nodes: Vec<TypeNode> = Vec::new();
    let mut i: usize = 0;
    while i < t.nodes.len()
        invariant
            i <= t.nodes@.len(),
            nodes@.len() == i,
            forall|k: int| 0 <= k < i ==> (#[trigger] nodes@[k])@ == t.nodes@[k]@,
        decreases t.nodes@.len() - i,
    {
        nodes.push(clone_node(&t.nodes[i]));
        i += 1;
    }
    let r = TypeRepr { nodes };
    assert(r@.nodes =~= t@.nodes);
    r
}

/// The view of an optional name.
pub open spec fn opt_str_view(s: Option<String>) -> Option<Seq<char>> {
    match s {
        Some(x) => Some(x@),
        None => None,
    }
}

fn clone_opt_string(s: &Option<String>) -> (r: Option<String>)
    ensures
        opt_str_view(r) == opt_str_view(*s),
{
    match s {
        Some(x) => Some(x.clone()),
        None => None,
    }
}

// ===========================================================================
// The normalized declaration.
// ===========================================================================

/// One field of a struct or of one enum variant.
pub struct Field {
    /// The parsed per-field directive configuration.
    pub attrs: attr::Field,
    /// The field name; absent for positional fields, which are addressed
    /// by their stable zero-based index.
    pub ident: Option<String>,
    /// The declared type expression.
    pub ty: TypeRepr,
    /// The opaque source position of the field.
    pub span: usize,
}

/// One tagged alternative of a sum type.
pub struct Variant {
    /// The directive configuration at variant granularity.
    pub attrs: attr::Input,
    pub fields: Vec<Field>,
    pub ident: String,
    pub style: Style,
}

/// The shape of the declared type: a sum of variants or a single product.
pub enum Body {
    Enum(Vec<Variant>),
    Struct(Style, Vec<Field>),
}

/// The normalized model of one type declaration.
pub struct Input {
    /// The directive configuration at type granularity.
    pub attrs: attr::Input,
    pub body: Body,
    pub generics: Generics,
    pub ident: String,
    pub span: usize,
}

/// The raw form of one field, as handed over by the host boundary.
pub struct RawField {
    pub attrs: Vec<RawMeta>,
    pub ident: Option<String>,
    pub ty: TypeRepr,
    pub span: usize,
}

/// The raw form of one enum variant.
pub struct RawVariant {
    pub attrs: Vec<RawMeta>,
    pub ident: String,
    pub style: Style,
    pub fields: Vec<RawField>,
}

/// The raw shape of a declaration.
pub enum RawBody {
    Enum(Vec<RawVariant>),
    Struct(Style, Vec<RawField>),
}

/// A raw type declaration: the annotations still unparsed, the structure
/// already normalized by the host boundary.
pub struct RawDecl {
    pub attrs: Vec<RawMeta>,
    pub body: RawBody,
    pub generics: Generics,
    pub ident: String,
    pub span: usize,
}

/// The relation between one built field and its raw form: the
/// configuration is the parse of the raw annotations, everything else is
/// carried over unchanged.
pub open spec fn field_from(f: Field, r: RawField) -> bool {
    &&& attr::spec_field_from_ast(r.attrs@) == Ok::<attr::FieldV, ConfigErrorV>(f.attrs@)
    &&& opt_str_view(f.ident) == opt_str_view(r.ident)
    &&& f.ty@ == r.ty@
    &&& f.span == r.span
}

/// The relation between a built field list and its raw form.
pub open spec fn fields_from(fs: Seq<Field>, rs: Seq<RawField>) -> bool {
    &&& fs.len() == rs.len()
    &&& forall|i: int| 0 <= i < fs.len() ==> field_from(#[trigger] fs[i], rs[i])
}

/// The relation between one built variant and its raw form.
pub open spec fn variant_from(v: Variant, r: RawVariant) -> bool {
    &&& attr::spec_input_from_ast(r.attrs@) == Ok::<attr::InputV, ConfigErrorV>(v.attrs@)
    &&& v.ident@ == r.ident@
    &&& v.style == r.style
    &&& fields_from(v.fields@, r.fields@)
}

/// The relation between a built body and its raw form.
pub open spec fn body_from(b: Body, r: RawBody) -> bool {
    match (b, r) {
        (Body::Enum(vs), RawBody::Enum(rs)) => {
            &&& vs@.len() == rs@.len()
            &&& forall|i: int| 0 <= i < vs@.len() ==> variant_from(#[trigger] vs@[i], rs@[i])
        },
        (Body::Struct(style, fs), RawBody::Struct(rstyle, rs)) => {
            &&& style == rstyle
            &&& fields_from(fs@, rs@)
        },
        _ => false,
    }
}

/// The relation between a built declaration and its raw form.
pub open spec fn input_from(inp: Input, r: RawDecl) -> bool {
    &&& attr::spec_input_from_ast(r.attrs@) == Ok::<attr::InputV, ConfigErrorV>(inp.attrs@)
    &&& body_from(inp.body, r.body)
    &&& inp.generics@ == r.generics@
    &&& inp.ident@ == r.ident@
    &&& inp.span == r.span
}

/// Whether building a declaration from this raw form fails: some
/// annotation set in it fails to parse.
pub open spec fn raw_field_err(r: RawField) -> bool {
    attr::spec_field_from_ast(r.attrs@) is Err
}

/// Whether some part of a raw declaration fails to parse.
pub open spec fn raw_decl_err(r: RawDecl) -> bool {
    ||| attr::spec_input_from_ast(r.attrs@) is Err
    ||| match r.body {
        RawBody::Enum(vs) => exists|i: int|
            0 <= i < vs@.len() && {
                ||| attr::spec_input_from_ast((#[trigger] vs@[i]).attrs@) is Err
                ||| exists|j: int|
                    0 <= j < vs@[i].fields@.len() && raw_field_err(#[trigger] vs@[i].fields@[j])
            },
        RawBody::Struct(_, fs) => exists|i: int|
            0 <= i < fs@.len() && raw_field_err(#[trigger] fs@[i]),
    }
}

fn fields_from_ast(raw: &Vec<RawField>) -> (r: Result<Vec<Field>, ConfigError>)
    ensures
        match r {
            Ok(fs) => fields_from(fs@, raw@),
            Err(_) => exists|i: int| 0 <= i < raw@.len() && raw_field_err(#[trigger] raw@[i]),
        },
{
    let mut out: Vec<Field> = Vec::new();
    let mut i: usize = 0;
    while i < raw.len()
        invariant
            i <= raw@.len(),
            out@.len() == i,
            forall|k: int| 0 <= k < i ==> field_from(#[trigger] out@[k], raw@[k]),
        decreases raw@.len() - i,
    {
        let rf = &raw[i];
        match attr::Field::from_ast(&rf.attrs) {
            Err(e) => {
                assert(raw_field_err(raw@[i as int]));
                return Err(e);
            },
            Ok(attrs) => {
                out.push(
                    Field {
                        attrs,
                        ident: clone_opt_string(&rf.ident),
                        ty: clone_type_repr(&rf.ty),
                        span: rf.span,
                    },
                );
            },
        }
        i += 1;
    }
    Ok(out)
}

fn enum_from_ast(raw: &Vec<RawVariant>) -> (r: Result<Vec<Variant>, ConfigError>)
    ensures
        match r {
            Ok(vs) => vs@.len() == raw@.len() && forall|i: int|
                0 <= i < vs@.len() ==> variant_from(#[trigger] vs@[i], raw@[i]),
            Err(_) => exists|i: int|
                0 <= i < raw@.len() && {
                    ||| attr::spec_input_from_ast((#[trigger] raw@[i]).attrs@) is Err
                    ||| exists|j: int|
                        0 <= j < raw@[i].fields@.len() && raw_field_err(
                            #[trigger] raw@[i].fields@[j],
                        )
                },
        },
{
    let mut out: Vec<Variant> = Vec::new();
    let mut i: usize = 0;
    while i < raw.len()
        invariant
            i <= raw@.len(),
            out@.len() == i,
            forall|k: int| 0 <= k < i ==> variant_from(#[trigger] out@[k], raw@[k]),
        decreases raw@.len() - i,
    {
        let rv = &raw[i];
        match attr::Input::from_ast(&rv.attrs) {
            Err(e) => {
                assert(attr::spec_input_from_ast(raw@[i as int].attrs@) is Err);
                return Err(e);
            },
            Ok(attrs) => {
                match fields_from_ast(&rv.fields) {
                    Err(e) => {
                        assert(exists|j: int|
                            0 <= j < raw@[i as int].fields@.len() && raw_field_err(
                                #[trigger] raw@[i as int].fields@[j],
                            ));
                        return Err(e);
                    },
                    Ok(fs) => {
                        out.push(
                            Variant { attrs, fields: fs, ident: rv.ident.clone(), style: rv.style },
                        );
                    },
                }
            },
        }
        i += 1;
    }
    Ok(out)
}

impl Input {
    /// Builds the normalized model of a declaration, parsing every
    /// directive annotation on the type, its variants and its fields. The
    /// first malformed annotation aborts the build with its error.
    pub fn from_ast(raw: &RawDecl) -> (r: Result<Input, ConfigError>)
        ensures
            match r {
                Ok(inp) => input_from(inp, *raw),
                Err(_) => raw_decl_err(*raw),
            },
    {
        let parsed_attrs = match attr::Input::from_ast(&raw.attrs) {
            Err(e) => {
                return Err(e);
            },
            Ok(a) => a,
        };
        let built = match &raw.body {
            RawBody::Enum(vs) => {
                match enum_from_ast(vs) {
                    Err(e) => {
                        return Err(e);
                    },
                    Ok(out) => Body::Enum(out),
                }
            },
            RawBody::Struct(style, fs) => {
                match fields_from_ast(fs) {
                    Err(e) => {
                        return Err(e);
                    },
                    Ok(out) => Body::Struct(*style, out),
                }
            },
        };
        Ok(
            Input {
                attrs: parsed_attrs,
                body: built,
                generics: clone_generics(&raw.generics),
                ident: raw.ident.clone(),
                span: raw.span,
            },
        )
    }

    /// Whether this type is an enum with only unit variants, for which
    /// binary traits may take the discriminant-only fast path.
    pub fn is_trivial_enum(&self) -> (r: bool)
        ensures
            r == spec_is_trivial_enum(self.body),
    {
        match &self.body {
            Body::Enum(vs) => {
                let mut i: usize = 0;
                while i < vs.len()
                    invariant
                        i <= vs@.len(),
                        self.body matches Body::Enum(e) && e@ == vs@,
                        forall|k: int| 0 <= k < i ==> (#[trigger] vs@[k]).fields@.len() == 0,
                    decreases vs@.len() - i,
                {
                    if vs[i].fields.len() != 0 {
                        return false;
                    }
                    i += 1;
                }
                true
            },
            Body::Struct(..) => false,
        }
    }
}

/// Whether the body is an enum with only unit variants.
pub open spec fn spec_is_trivial_enum(b: Body) -> bool {
    match b {
        Body::Enum(vs) => forall|i: int| 0 <= i < vs@.len() ==> (#[trigger] vs@[i]).fields@.len()
            == 0,
        Body::Struct(..) => false,
    }
}

/// All fields of the declaration, in declaration order: the fields of
/// every variant in order for an enum, the struct fields otherwise.
pub open spec fn spec_all_fields(b: Body) -> Seq<Field> {
    match b {
        Body::Enum(vs) => spec_variants_fields(vs@),
        Body::Struct(_, fs) => fs@,
    }
}

/// The concatenation of the field lists of a variant sequence.
pub open spec fn spec_variants_fields(vs: Seq<Variant>) -> Seq<Field>
    decreases vs.len(),
{
    if vs.len() == 0 {
        Seq::empty()
    } else {
        vs[0].fields@ + spec_variants_fields(vs.subrange(1, vs.len() as int))
    }
}

impl Body {
    /// Collects references to all fields, in declaration order.
    pub fn all_fields(&self) -> (r: Vec<&Field>)
        ensures
            r@.len() == spec_all_fields(*self).len(),
            forall|i: int| 0 <= i < r@.len() ==> *(#[trigger] r@[i]) == spec_all_fields(*self)[i],
    {
        match self {
            Body::Struct(_, fs) => {
                let mut out: Vec<&Field> = Vec::new();
                let mut i: usize = 0;
                while i < fs.len()
                    invariant
                        i <= fs@.len(),
                        out@.len() == i,
                        forall|k: int| 0 <= k < i ==> *(#[trigger] out@[k]) == fs@[k],
                    decreases fs@.len() - i,
                {
                    out.push(&fs[i]);
                    i += 1;
                }
                out
            },
            Body::Enum(vs) => {
                let mut out: Vec<&Field> = Vec::new();
                let mut i: usize = 0;
                while i < vs.len()
                    invariant
                        i <= vs@.len(),
                        out@.len() == spec_variants_fields(vs@.subrange(0, i as int)).len(),
                        forall|k: int|
                            0 <= k < out@.len() ==> *(#[trigger] out@[k]) == spec_variants_fields(
                                vs@.subrange(0, i as int),
                            )[k],
                    decreases vs@.len() - i,
                {
                    let ghost pre = vs@.subrange(0, i as int);
                    let fs = &vs[i].fields;
                    let mut j: usize = 0;
                    while j < fs.len()
                        invariant
                            j <= fs@.len(),
                            fs@ == vs@[i as int].fields@,
                            i < vs@.len(),
                            pre == vs@.subrange(0, i as int),
                            out@.len() == spec_variants_fields(pre).len() + j,
                            forall|k: int|
                                0 <= k < spec_variants_fields(pre).len() ==> *(
                                #[trigger] out@[k]) == spec_variants_fields(pre)[k],
                            forall|k: int|
                                0 <= k < j ==> *(
                                #[trigger] out@[spec_variants_fields(pre).len() + k]) == fs@[k],
                        decreases fs@.len() - j,
                    {
                        out.push(&fs[j]);
                        j += 1;
                    }
                    i += 1;
                    proof {
                        lemma_variants_fields_snoc(pre, vs@[i - 1]);
                        assert(vs@.subrange(0, i as int) =~= pre.push(vs@[i - 1]));
                        assert(spec_variants_fields(vs@.subrange(0, i as int))
                            == spec_variants_fields(pre) + vs@[i - 1].fields@);
                        let plen = spec_variants_fields(pre).len() as int;
                        assert forall|k: int| 0 <= k < out@.len() implies *(#[trigger] out@[k])
                            == spec_variants_fields(vs@.subrange(0, i as int))[k] by {
                            if k < plen {
                                assert(spec_variants_fields(vs@.subrange(0, i as int))[k]
                                    == spec_variants_fields(pre)[k]);
                            } else {
                                let k2 = k - plen;
                                assert(*out@[plen + k2] == vs@[i - 1].fields@[k2]);
                                assert(plen + k2 == k);
                                assert(spec_variants_fields(vs@.subrange(0, i as int))[k]
                                    == vs@[i - 1].fields@[k - plen]);
                            }
                        }
                    }
                }
                proof {
                    assert(vs@.subrange(0, vs@.len() as int) =~= vs@);
                }
                out
            },
        }
    }
}

proof fn lemma_variants_fields_snoc(s: Seq<Variant>, v: Variant)
    ensures
        spec_variants_fields(s.push(v)) == spec_variants_fields(s) + v.fields@,
    decreases s.len(),
{
    if s.len() == 0 {
        assert(s.push(v)[0] == v);
        assert(s.push(v).subrange(1, 1) =~= Seq::<Variant>::empty());
        assert(spec_variants_fields(s.push(v).subrange(1, 1)) =~= Seq::<Field>::empty());
        assert(spec_variants_fields(s.push(v)) == v.fields@ + spec_variants_fields(
            s.push(v).subrange(1, 1),
        ));
        assert(spec_variants_fields(s) =~= Seq::<Field>::empty());
        assert(spec_variants_fields(s.push(v)) =~= spec_variants_fields(s) + v.fields@);
    } else {
        let tail = s.subrange(1, s.len() as int);
        lemma_variants_fields_snoc(tail, v);
        assert(s.push(v)[0] == s[0]);
        assert(s.push(v).subrange(1, s.len() as int + 1) =~= tail.push(v));
        assert(spec_variants_fields(s.push(v)) == s[0].fields@ + spec_variants_fields(
            tail.push(v),
        ));
        assert(spec_variants_fields(s) == s[0].fields@ + spec_variants_fields(tail));
        assert(s[0].fields@ + (spec_variants_fields(tail) + v.fields@) =~= (s[0].fields@
            + spec_variants_fields(tail)) + v.fields@);
        assert(spec_variants_fields(s.push(v)) == s[0].fields@ + (spec_variants_fields(tail)
            + v.fields@));
        assert(spec_variants_fields(s.push(v)) == spec_variants_fields(s) + v.fields@);
    }
}

impl Variant {
    /// Whether this variant has no fields at all.
    pub fn is_unit(&self) -> (r: bool)
        ensures
            r == (self.fields@.len() == 0),
    {
        self.fields.len() == 0
    }
}

} // verus!
