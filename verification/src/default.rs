//! The default-construction emitter: one value of the type, built per
//! field from its explicit `value` expression override or from the trait's
//! own zero-value construction. On an enum exactly one variant must carry
//! the default-variant marker; zero or several markers are a configuration
//! error, never resolved by a first-match heuristic.

use vstd::prelude::*;

use crate::ast;
use crate::ast::{Body, Style};
use crate::attr;
use crate::attr::{ConfigError, ConfigErrorV, TraitKind};
use crate::eval::{spec_first_marked, spec_marked_count};
use crate::utils::{emit_impl, spec_impl_text};

verus! {

/// Every field takes part in default construction.
pub fn needs_default(attrs: &attr::Field) -> (r: bool)
    ensures
        r == attr::spec_needs(attrs@, TraitKind::Default),
{
    attr::needs_bound(attrs, TraitKind::Default)
}

/// The path of the `Default` trait.
pub fn default_trait_path() -> (r: &'static str)
    ensures
        r@ == "::std::default::Default"@,
{
    "::std::default::Default"
}

/// The default expression of one field: its override verbatim, or the
/// trait's own zero-value construction.
pub open spec fn spec_default_expr(f: ast::Field) -> Seq<char> {
    match f.attrs@.default.value {
        Some(v) => v,
        None => "::std::default::Default::default ( )"@,
    }
}

/// The field defaults from `i` on, with names restated under a named
/// layout.
pub open spec fn spec_default_pieces(fields: Seq<ast::Field>, i: int, named: bool) -> Seq<char>
    decreases fields.len() - i,
{
    if i < 0 || i >= fields.len() {
        Seq::empty()
    } else {
        (if named {
            (match fields[i].ident {
                Some(n) => n@,
                None => Seq::empty(),
            }) + " : "@ + spec_default_expr(fields[i]) + " , "@
        } else {
            spec_default_expr(fields[i]) + " , "@
        }) + spec_default_pieces(fields, i + 1, named)
    }
}

/// One constructed variant: its path with every field's default.
pub open spec fn spec_variant_data(path: Seq<char>, style: Style, fields: Seq<ast::Field>) -> Seq<
    char,
> {
    match style {
        Style::Struct => path + " { "@ + spec_default_pieces(fields, 0, true) + "}"@,
        Style::Tuple => path + " ( "@ + spec_default_pieces(fields, 0, false) + ")"@,
        Style::Unit => path,
    }
}

/// The full generated `Default` implementation, or the marker error for
/// an enum with zero or several default-marked variants.
pub open spec fn spec_derive_default(input: ast::Input) -> Result<Seq<char>, ConfigErrorV> {
    match input.body {
        Body::Struct(style, fs) => Ok(
            spec_impl_text(
                input,
                TraitKind::Default,
                "::std::default::Default"@,
                "fn default ( ) -> Self { "@ + spec_variant_data(input.ident@, style, fs@)
                    + " }"@,
            ),
        ),
        Body::Enum(vs) => if spec_marked_count(vs@, 0) != 1 {
            Err(ConfigErrorV::AmbiguousDefaultVariant { span: input.span as int })
        } else {
            let k = spec_first_marked(vs@, 0);
            Ok(
                spec_impl_text(
                    input,
                    TraitKind::Default,
                    "::std::default::Default"@,
                    "fn default ( ) -> Self { "@ + spec_variant_data(
                        input.ident@ + " :: "@ + vs@[k].ident@,
                        vs@[k].style,
                        vs@[k].fields@,
                    ) + " }"@,
                ),
            )
        },
    }
}

fn default_pieces(fields: &Vec<ast::Field>, i: usize, named: bool) -> (r: String)
    requires
        i <= fields@.len(),
    ensures
        r@ == spec_default_pieces(fields@, i as int, named),
    decreases fields@.len() - i,
{
    if i == fields.len() {
        let r = String::new();
        assert(r@ =~= spec_default_pieces(fields@, i as int, named));
        return r;
    }
    let mut out = String::new();
    if named {
        match &fields[i].ident {
            Some(n) => out.append(n.as_str()),
            None => {},
        }
        out.append(" : ");
    }
    match &fields[i].attrs.default.value {
        Some(v) => out.append(v.as_str()),
        None => out.append("::std::default::Default::default ( )"),
    }
    out.append(" , ");
    let t = default_pieces(fields, i + 1, named);
    out.append(t.as_str());
    assert(out@ =~= spec_default_pieces(fields@, i as int, named));
    out
}

fn make_variant_data(path: String, style: Style, fields: &Vec<ast::Field>) -> (r: String)
    ensures
        r@ == spec_variant_data(path@, style, fields@),
{
    let mut out = path;
    match style {
        Style::Struct => {
            out.append(" { ");
            let p = default_pieces(fields, 0, true);
            out.append(p.as_str());
            out.append("}");
        },
        Style::Tuple => {
            out.append(" ( ");
            let p = default_pieces(fields, 0, false);
            out.append(p.as_str());
            out.append(")");
        },
        Style::Unit => {},
    }
    out
}

/// Derives `Default` for `input`.
pub fn derive(input: &ast::Input) -> (r: Result<String, ConfigError>)
    ensures
        match r {
            Ok(s) => spec_derive_default(*input) == Ok::<Seq<char>, ConfigErrorV>(s@),
            Err(e) => spec_derive_default(*input) == Err::<Seq<char>, ConfigErrorV>(e@),
        },
{
    let data: String = match &input.body {
        Body::Struct(style, fs) => make_variant_data(input.ident.clone(), *style, fs),
        Body::Enum(vs) => {
            let ghost vsv = vs@;
            let mut count: usize = 0;
            let mut first: usize = vs.len();
            let mut i: usize = 0;
            while i < vs.len()
                invariant
                    i <= vsv.len(),
                    vsv == vs@,
                    count <= i,
                    spec_marked_count(vsv, 0) == count + spec_marked_count(vsv, i as int),
                    count > 0 ==> first < i && vsv[first as int].attrs@.default is Some
                        && spec_first_marked(vsv, 0) == first,
                    count == 0 ==> first == vsv.len() && spec_first_marked(vsv, 0)
                        == spec_first_marked(vsv, i as int),
                decreases vsv.len() - i,
            {
                let marked = vs[i].attrs.default.is_some();
                if marked && count == 0 {
                    first = i;
                }
                if marked {
                    count += 1;
                }
                i += 1;
            }
            if count != 1 {
                return Err(ConfigError::AmbiguousDefaultVariant { span: input.span });
            }
            let mut path = input.ident.clone();
            path.append(" :: ");
            path.append(vs[first].ident.as_str());
            assert(path@ =~= input.ident@ + " :: "@ + vs@[first as int].ident@);
            make_variant_data(path, vs[first].style, &vs[first].fields)
        },
    };
    let mut body = String::from_str("fn default ( ) -> Self { ");
    body.append(data.as_str());
    body.append(" }");
    proof {
        match &input.body {
            Body::Struct(style, fs) => {
                assert(body@ =~= "fn default ( ) -> Self { "@ + spec_variant_data(
                    input.ident@,
                    *style,
                    fs@,
                ) + " }"@);
            },
            Body::Enum(vs) => {
                let k = spec_first_marked(vs@, 0);
                assert(body@ =~= "fn default ( ) -> Self { "@ + spec_variant_data(
                    input.ident@ + " :: "@ + vs@[k].ident@,
                    vs@[k].style,
                    vs@[k].fields@,
                ) + " }"@);
            },
        }
    }
    let r = emit_impl(input, TraitKind::Default, default_trait_path(), body);
    Ok(r)
}

} // verus!
