//! The structural matcher: for each variant of a declaration it produces a
//! match pattern and the ordered synthetic bindings over the variant's
//! fields, so that every trait emitter can generate structurally aligned
//! code over one instance or two instances of the type.

use vstd::prelude::*;

use crate::ast;
use crate::ast::{Body, Style};
use crate::utils::{append_usize, push_char, spec_dec};

verus! {

/// The mode applied uniformly to every binding of one matcher invocation.
#[derive(Clone, Copy, Debug, PartialEq, Eq, Structural)]
pub enum BindingStyle {
    /// `x`
    Move,
    /// `mut x`
    MoveMut,
    /// `ref x`
    Ref,
    /// `ref mut x`
    RefMut,
}

/// The pattern prefix of a binding style.
pub open spec fn spec_binding_prefix(s: BindingStyle) -> Seq<char> {
    match s {
        BindingStyle::Move => ""@,
        BindingStyle::MoveMut => "mut "@,
        BindingStyle::Ref => "ref "@,
        BindingStyle::RefMut => "ref mut "@,
    }
}

impl BindingStyle {
    /// The pattern prefix this style puts before each binding.
    pub fn prefix(self) -> (r: &'static str)
        ensures
            r@ == spec_binding_prefix(self),
    {
        match self {
            BindingStyle::Move => "",
            BindingStyle::MoveMut => "mut ",
            BindingStyle::Ref => "ref ",
            BindingStyle::RefMut => "ref mut ",
        }
    }
}

/// The synthetic name of the `i`-th binding: `<base>_<i>`, stable and
/// collision-free within one match because `i` is the field's positional
/// index in its variant.
pub open spec fn spec_binding_ident(base: Seq<char>, i: int) -> Seq<char> {
    base + "_"@ + spec_dec(i)
}

/// Builds the synthetic name of the `i`-th binding.
pub fn binding_ident(base: &str, i: usize) -> (r: String)
    ensures
        r@ == spec_binding_ident(base@, i as int),
{
    let mut s = base.to_owned();
    push_char(&mut s, '_');
    append_usize(&mut s, i);
    proof {
        reveal_strlit("_");
        assert(s@ =~= spec_binding_ident(base@, i as int));
    }
    s
}

/// One synthetic binding: its name and the positional index of the field
/// it binds within its variant.
pub struct BindingInfo {
    pub ident: String,
    pub field: usize,
}

/// What an emitter needs to know about one match arm's variant: its full
/// path, its bare name, its layout, and its index in the declaration.
pub struct CommonVariant {
    pub path: String,
    pub name: String,
    pub style: Style,
    pub variant: usize,
}

/// One arm produced by the matcher: the variant description, the rendered
/// pattern, and the bindings in field order.
pub struct MatchArm {
    pub variant: CommonVariant,
    pub pat: String,
    pub bindings: Vec<BindingInfo>,
}

/// A matcher invocation: the base name for synthetic bindings and the
/// binding mode applied to all of them.
pub struct Matcher {
    pub binding_name: String,
    pub binding_style: BindingStyle,
}

/// The view of a [`Matcher`].
pub struct MatcherV {
    pub binding_name: Seq<char>,
    pub binding_style: BindingStyle,
}

impl View for Matcher {
    type V = MatcherV;

    open spec fn view(&self) -> MatcherV {
        MatcherV { binding_name: self.binding_name@, binding_style: self.binding_style }
    }
}

// ===========================================================================
// Pattern text.
// ===========================================================================

/// The pattern pieces for the fields from index `i` on, appended to
/// `acc`: for a named layout `name : prefix <base>_<i> , `, for a
/// positional layout `prefix <base>_<i> , `.
pub open spec fn spec_pattern_fields(
    fields: Seq<ast::Field>,
    i: int,
    base: Seq<char>,
    prefix: Seq<char>,
    named: bool,
    acc: Seq<char>,
) -> Seq<char>
    decreases fields.len() - i,
{
    if i < 0 || i >= fields.len() {
        acc
    } else {
        let b = spec_binding_ident(base, i);
        let piece = if named {
            (match fields[i].ident {
                Some(n) => n@,
                None => Seq::empty(),
            }) + " : "@ + prefix + b + " , "@
        } else {
            prefix + b + " , "@
        };
        spec_pattern_fields(fields, i + 1, base, prefix, named, acc + piece)
    }
}

/// The full pattern of one variant: the bare path for a unit layout, the
/// path with parenthesized bindings for a positional layout, the path
/// with braced `name : binding` pairs for a named layout.
pub open spec fn spec_pattern(
    path: Seq<char>,
    style: Style,
    fields: Seq<ast::Field>,
    base: Seq<char>,
    prefix: Seq<char>,
) -> Seq<char> {
    match style {
        Style::Unit => path,
        Style::Tuple => path + " ( "@ + spec_pattern_fields(fields, 0, base, prefix, false,
            Seq::empty()) + ")"@,
        Style::Struct => path + " { "@ + spec_pattern_fields(fields, 0, base, prefix, true,
            Seq::empty()) + "}"@,
    }
}

fn pattern_text(
    path: &String,
    style: Style,
    fields: &Vec<ast::Field>,
    base: &str,
    prefix: &str,
) -> (r: String)
    ensures
        r@ == spec_pattern(path@, style, fields@, base@, prefix@),
{
    match style {
        Style::Unit => path.clone(),
        Style::Tuple | Style::Struct => {
            let named = matches!(style, Style::Struct);
            let mut inner = String::new();
            let mut i: usize = 0;
            while i < fields.len()
                invariant
                    i <= fields@.len(),
                    spec_pattern_fields(fields@, i as int, base@, prefix@, named, inner@)
                        == spec_pattern_fields(fields@, 0, base@, prefix@, named, Seq::empty()),
                decreases fields@.len() - i,
            {
                let ghost before = inner@;
                if named {
                    match &fields[i].ident {
                        Some(n) => inner.append(n.as_str()),
                        None => {},
                    }
                    inner.append(" : ");
                }
                inner.append(prefix);
                let b = binding_ident(base, i);
                inner.append(b.as_str());
                inner.append(" , ");
                proof {
                    let piece = if named {
                        (match fields@[i as int].ident {
                            Some(n) => n@,
                            None => Seq::<char>::empty(),
                        }) + " : "@ + prefix@ + spec_binding_ident(base@, i as int) + " , "@
                    } else {
                        prefix@ + spec_binding_ident(base@, i as int) + " , "@
                    };
                    assert(inner@ =~= before + piece);
                }
                i += 1;
            }
            let mut out = path.clone();
            if named {
                out.append(" { ");
                out.append(inner.as_str());
                out.append("}");
                assert(out@ =~= path@ + " { "@ + spec_pattern_fields(fields@, 0, base@, prefix@,
                    true, Seq::empty()) + "}"@);
            } else {
                out.append(" ( ");
                out.append(inner.as_str());
                out.append(")");
                assert(out@ =~= path@ + " ( "@ + spec_pattern_fields(fields@, 0, base@, prefix@,
                    false, Seq::empty()) + ")"@);
            }
            out
        },
    }
}

// ===========================================================================
// Arm descriptions.
// ===========================================================================

/// The number of match arms of a body: one per variant, and one for a
/// struct, which matches as a single implicit variant.
pub open spec fn spec_n_arms(body: Body) -> int {
    match body {
        Body::Enum(vs) => vs@.len() as int,
        Body::Struct(..) => 1,
    }
}

/// The match path of arm `k`.
pub open spec fn spec_arm_path(input: ast::Input, k: int) -> Seq<char> {
    match input.body {
        Body::Enum(vs) => input.ident@ + " :: "@ + vs@[k].ident@,
        Body::Struct(..) => input.ident@,
    }
}

/// The bare variant name of arm `k`.
pub open spec fn spec_arm_name(input: ast::Input, k: int) -> Seq<char> {
    match input.body {
        Body::Enum(vs) => vs@[k].ident@,
        Body::Struct(..) => input.ident@,
    }
}

/// The layout of arm `k`.
pub open spec fn spec_arm_style(input: ast::Input, k: int) -> Style {
    match input.body {
        Body::Enum(vs) => vs@[k].style,
        Body::Struct(style, _) => style,
    }
}

/// The fields of arm `k`.
pub open spec fn spec_arm_fields(input: ast::Input, k: int) -> Seq<ast::Field> {
    match input.body {
        Body::Enum(vs) => vs@[k].fields@,
        Body::Struct(_, fs) => fs@,
    }
}

/// The rendered pattern of arm `k` with binding base `base` and style
/// prefix `prefix`.
pub open spec fn spec_arm_pattern(
    input: ast::Input,
    k: int,
    base: Seq<char>,
    prefix: Seq<char>,
) -> Seq<char> {
    spec_pattern(
        spec_arm_path(input, k),
        spec_arm_style(input, k),
        spec_arm_fields(input, k),
        base,
        prefix,
    )
}

/// What [`Matcher::build_match_pattern`] promises of arm `k`.
pub open spec fn spec_arm_ok(
    arm: MatchArm,
    input: ast::Input,
    k: int,
    base: Seq<char>,
    prefix: Seq<char>,
) -> bool {
    &&& arm.variant.path@ == spec_arm_path(input, k)
    &&& arm.variant.name@ == spec_arm_name(input, k)
    &&& arm.variant.style == spec_arm_style(input, k)
    &&& arm.variant.variant == k
    &&& arm.pat@ == spec_arm_pattern(input, k, base, prefix)
    &&& arm.bindings@.len() == spec_arm_fields(input, k).len()
    &&& forall|i: int|
        0 <= i < arm.bindings@.len() ==> (#[trigger] arm.bindings@[i]).ident@
            == spec_binding_ident(base, i) && arm.bindings@[i].field == i
}

impl Matcher {
    /// A matcher with the default binding base name.
    pub fn new(style: BindingStyle) -> (r: Matcher)
        ensures
            r@ == (MatcherV { binding_name: "__arg"@, binding_style: style }),
    {
        Matcher { binding_name: String::from_str("__arg"), binding_style: style }
    }

    /// The same matcher with another binding base name.
    pub fn with_name(self, name: String) -> (r: Matcher)
        ensures
            r@ == (MatcherV { binding_name: name@, binding_style: self@.binding_style }),
    {
        Matcher { binding_name: name, binding_style: self.binding_style }
    }

    fn arm_bindings(&self, n: usize, base: &str) -> (r: Vec<BindingInfo>)
        ensures
            r@.len() == n,
            forall|i: int|
                0 <= i < n ==> (#[trigger] r@[i]).ident@ == spec_binding_ident(base@, i)
                    && r@[i].field == i,
    {
        let mut out: Vec<BindingInfo> = Vec::new();
        let mut i: usize = 0;
        while i < n
            invariant
                i <= n,
                out@.len() == i,
                forall|k: int|
                    0 <= k < i ==> (#[trigger] out@[k]).ident@ == spec_binding_ident(base@, k)
                        && out@[k].field == k,
            decreases n - i,
        {
            out.push(BindingInfo { ident: binding_ident(base, i), field: i });
            i += 1;
        }
        out
    }

    /// Generates, for every variant, the pattern matching it and the
    /// synthetic bindings over its fields.
    pub fn build_match_pattern(&self, input: &ast::Input, binding_name: &str) -> (r: Vec<MatchArm>)
        ensures
            r@.len() == spec_n_arms(input.body),
            forall|k: int|
                0 <= k < r@.len() ==> spec_arm_ok(
                    #[trigger] r@[k],
                    *input,
                    k,
                    binding_name@,
                    spec_binding_prefix(self@.binding_style),
                ),
    {
        let prefix = self.binding_style.prefix();
        let mut out: Vec<MatchArm> = Vec::new();
        match &input.body {
            Body::Struct(style, fs) => {
                let path = input.ident.clone();
                let pat = pattern_text(&path, *style, fs, binding_name, prefix);
                let bindings = self.arm_bindings(fs.len(), binding_name);
                out.push(
                    MatchArm {
                        variant: CommonVariant {
                            path,
                            name: input.ident.clone(),
                            style: *style,
                            variant: 0,
                        },
                        pat,
                        bindings,
                    },
                );
            },
            Body::Enum(vs) => {
                let mut k: usize = 0;
                while k < vs.len()
                    invariant
                        k <= vs@.len(),
                        out@.len() == k,
                        input.body matches Body::Enum(e) && e@ == vs@,
                        forall|j: int|
                            0 <= j < k ==> spec_arm_ok(
                                #[trigger] out@[j],
                                *input,
                                j,
                                binding_name@,
                                spec_binding_prefix(self@.binding_style),
                            ),
                        prefix@ == spec_binding_prefix(self@.binding_style),
                    decreases vs@.len() - k,
                {
                    let v = &vs[k];
                    let mut path = input.ident.clone();
                    path.append(" :: ");
                    path.append(v.ident.as_str());
                    assert(path@ =~= input.ident@ + " :: "@ + v.ident@);
                    let pat = pattern_text(&path, v.style, &v.fields, binding_name, prefix);
                    let bindings = self.arm_bindings(v.fields.len(), binding_name);
                    out.push(
                        MatchArm {
                            variant: CommonVariant {
                                path,
                                name: v.ident.clone(),
                                style: v.style,
                                variant: k,
                            },
                            pat,
                            bindings,
                        },
                    );
                    k += 1;
                }
            },
        }
        out
    }

    /// The arms of a one-instance match: for each variant, its pattern,
    /// `=>`, and the caller's body for that variant.
    pub open spec fn spec_build_arms(
        input: ast::Input,
        base: Seq<char>,
        prefix: Seq<char>,
        bodies: Seq<Seq<char>>,
        k: int,
        acc: Seq<char>,
    ) -> Seq<char>
        decreases spec_n_arms(input.body) - k,
    {
        if k < 0 || k >= spec_n_arms(input.body) {
            acc
        } else {
            Matcher::spec_build_arms(
                input,
                base,
                prefix,
                bodies,
                k + 1,
                acc + spec_arm_pattern(input, k, base, prefix) + " => { "@ + bodies[k] + " } "@,
            )
        }
    }

    /// Assembles the arms of a match over one instance: one arm per
    /// variant, each with the caller's body for that variant.
    pub fn build_arms(&self, input: &ast::Input, binding_name: &str, bodies: &Vec<String>) -> (r:
        String)
        requires
            bodies@.len() == spec_n_arms(input.body),
        ensures
            r@ == Matcher::spec_build_arms(
                *input,
                binding_name@,
                spec_binding_prefix(self@.binding_style),
                bodies@.map_values(|b: String| b@),
                0,
                Seq::empty(),
            ),
    {
        let ghost prefix = spec_binding_prefix(self@.binding_style);
        let ghost bs = bodies@.map_values(|b: String| b@);
        let arms = self.build_match_pattern(input, binding_name);
        let mut out = String::new();
        let mut k: usize = 0;
        while k < arms.len()
            invariant
                k <= arms@.len(),
                arms@.len() == spec_n_arms(input.body),
                bs == bodies@.map_values(|b: String| b@),
                bs.len() == spec_n_arms(input.body),
                forall|j: int|
                    0 <= j < arms@.len() ==> spec_arm_ok(
                        #[trigger] arms@[j],
                        *input,
                        j,
                        binding_name@,
                        prefix,
                    ),
                Matcher::spec_build_arms(*input, binding_name@, prefix, bs, k as int, out@)
                    == Matcher::spec_build_arms(*input, binding_name@, prefix, bs, 0, Seq::empty()),
            decreases arms@.len() - k,
        {
            let ghost before = out@;
            out.append(arms[k].pat.as_str());
            out.append(" => { ");
            out.append(bodies[k].as_str());
            out.append(" } ");
            proof {
                assert(bs[k as int] == bodies@[k as int]@);
                assert(out@ =~= before + spec_arm_pattern(*input, k as int, binding_name@, prefix)
                    + " => { "@ + bs[k as int] + " } "@);
            }
            k += 1;
        }
        out
    }

    /// The arms of a two-instance match: for each pair of one variant
    /// with itself, the paired patterns and the caller's body; pairs of
    /// distinct variants are left to the caller's catch-all arm.
    pub open spec fn spec_build_2_arms(
        input: ast::Input,
        left: Seq<char>,
        right: Seq<char>,
        prefix: Seq<char>,
        bodies: Seq<Seq<char>>,
        k: int,
        acc: Seq<char>,
    ) -> Seq<char>
        decreases spec_n_arms(input.body) - k,
    {
        if k < 0 || k >= spec_n_arms(input.body) {
            acc
        } else {
            Matcher::spec_build_2_arms(
                input,
                left,
                right,
                prefix,
                bodies,
                k + 1,
                acc + "( "@ + spec_arm_pattern(input, k, left, prefix) + " , "@
                    + spec_arm_pattern(input, k, right, prefix) + " ) => { "@ + bodies[k]
                    + " } "@,
            )
        }
    }

    /// Assembles the arms of a match over a pair of instances of the same
    /// declaration, pairing each variant with itself. Both sides come
    /// from one declaration, so their variant layouts agree by
    /// construction.
    pub fn build_2_arms(
        &self,
        input: &ast::Input,
        left_name: &str,
        right_name: &str,
        bodies: &Vec<String>,
    ) -> (r: String)
        requires
            bodies@.len() == spec_n_arms(input.body),
        ensures
            r@ == Matcher::spec_build_2_arms(
                *input,
                left_name@,
                right_name@,
                spec_binding_prefix(self@.binding_style),
                bodies@.map_values(|b: String| b@),
                0,
                Seq::empty(),
            ),
    {
        let ghost prefix = spec_binding_prefix(self@.binding_style);
        let ghost bs = bodies@.map_values(|b: String| b@);
        let left_arms = self.build_match_pattern(input, left_name);
        let right_arms = self.build_match_pattern(input, right_name);
        let mut out = String::new();
        let mut k: usize = 0;
        while k < left_arms.len()
            invariant
                k <= left_arms@.len(),
                left_arms@.len() == spec_n_arms(input.body),
                right_arms@.len() == spec_n_arms(input.body),
                bs == bodies@.map_values(|b: String| b@),
                bs.len() == spec_n_arms(input.body),
                forall|j: int|
                    0 <= j < left_arms@.len() ==> spec_arm_ok(
                        #[trigger] left_arms@[j],
                        *input,
                        j,
                        left_name@,
                        prefix,
                    ),
                forall|j: int|
                    0 <= j < right_arms@.len() ==> spec_arm_ok(
                        #[trigger] right_arms@[j],
                        *input,
                        j,
                        right_name@,
                        prefix,
                    ),
                Matcher::spec_build_2_arms(
                    *input,
                    left_name@,
                    right_name@,
                    prefix,
                    bs,
                    k as int,
                    out@,
                ) == Matcher::spec_build_2_arms(
                    *input,
                    left_name@,
                    right_name@,
                    prefix,
                    bs,
                    0,
                    Seq::empty(),
                ),
            decreases left_arms@.len() - k,
        {
            let ghost before = out@;
            out.append("( ");
            out.append(left_arms[k].pat.as_str());
            out.append(" , ");
            out.append(right_arms[k].pat.as_str());
            out.append(" ) => { ");
            out.append(bodies[k].as_str());
            out.append(" } ");
            proof {
                assert(bs[k as int] == bodies@[k as int]@);
                assert(out@ =~= before + "( "@ + spec_arm_pattern(
                    *input,
                    k as int,
                    left_name@,
                    prefix,
                ) + " , "@ + spec_arm_pattern(*input, k as int, right_name@, prefix) + " ) => { "@
                    + bs[k as int] + " } "@);
            }
            k += 1;
        }
        out
    }
}

} // verus!
