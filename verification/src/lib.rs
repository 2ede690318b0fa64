//! A configurable generator for implementations of the standard structural
//! traits (equality, ordering, hashing, cloning, formatting,
//! default-construction) over user-declared product and sum types.
//!
//! The pipeline works on a normalized model of a type declaration:
//! a declaration is turned into an [`ast::Input`], the per-type and per-field
//! directives are parsed into an [`attr::Input`] / [`attr::Field`]
//! configuration, the minimal generic-parameter constraints for each requested
//! trait are inferred by [`bound`], and the per-variant patterns and synthetic
//! bindings that every emitter matches over come from [`matcher`]. The
//! emitters in [`clone`], [`cmp`], [`debug`], [`default`] and [`hash`] each
//! produce one implementation fragment as token text. The meaning of the
//! comparison fragments (field-by-field conjunction for equality, the
//! lexicographic tie-break fold for ordering) is captured by the evaluator in
//! [`eval`], where the algebraic laws of the generated code are proved.

use vstd::prelude::*;

pub mod ast;
pub mod attr;
pub mod bound;
pub mod clone;
pub mod cmp;
pub mod debug;
pub mod default;
pub mod eval;
pub mod hash;
pub mod matcher;
pub mod utils;

use crate::attr::{ConfigError, ConfigErrorV};

verus! {

/// One step of the driver: the fragment text extended by one emitter's
/// output, or the error list extended by its error.
pub open spec fn spec_step(
    acc: (Seq<char>, Seq<ConfigErrorV>),
    r: Result<Seq<char>, ConfigErrorV>,
) -> (Seq<char>, Seq<ConfigErrorV>) {
    match r {
        Ok(s) => (acc.0 + s + " "@, acc.1),
        Err(e) => (acc.0, acc.1.push(e)),
    }
}

/// The concatenated implementation fragments for every requested trait,
/// in a fixed dispatch order, together with the configuration errors of
/// the traits whose emission was blocked. One trait's error leaves every
/// other requested trait's fragment intact.
pub open spec fn spec_derive_impls(input: ast::Input) -> (Seq<char>, Seq<ConfigErrorV>) {
    let acc: (Seq<char>, Seq<ConfigErrorV>) = (Seq::empty(), Seq::empty());
    let acc = if input.attrs@.clone is Some {
        spec_step(acc, Ok(clone::spec_derive_clone(input)))
    } else {
        acc
    };
    let acc = if input.attrs@.copy is Some {
        spec_step(acc, Ok(clone::spec_derive_copy(input)))
    } else {
        acc
    };
    let acc = if input.attrs@.debug is Some {
        spec_step(acc, Ok(debug::spec_derive_debug(input)))
    } else {
        acc
    };
    let acc = if input.attrs@.default is Some {
        spec_step(acc, default::spec_derive_default(input))
    } else {
        acc
    };
    let acc = if input.attrs@.eq is Some {
        spec_step(acc, Ok(cmp::spec_derive_eq(input)))
    } else {
        acc
    };
    let acc = if input.attrs@.hash is Some {
        spec_step(acc, Ok(hash::spec_derive_hash(input)))
    } else {
        acc
    };
    let acc = if input.attrs@.partial_eq is Some {
        spec_step(acc, cmp::spec_derive_partial_eq(input))
    } else {
        acc
    };
    let acc = if input.attrs@.partial_ord is Some {
        spec_step(acc, cmp::spec_derive_partial_ord(input))
    } else {
        acc
    };
    if input.attrs@.ord is Some {
        spec_step(acc, cmp::spec_derive_ord(input))
    } else {
        acc
    }
}

/// Runs every requested trait emitter over one normalized declaration and
/// concatenates the fragments; a configuration error of one trait blocks
/// only that trait's emission.
#[verifier::rlimit(100)]
pub fn derive_impls(input: &ast::Input) -> (r: (String, Vec<ConfigError>))
    ensures
        r.0@ == spec_derive_impls(*input).0,
        r.1@.map_values(|e: ConfigError| e@) == spec_derive_impls(*input).1,
{
    let mut out = String::new();
    let mut errors: Vec<ConfigError> = Vec::new();
    let ghost acc0: (Seq<char>, Seq<ConfigErrorV>) = (Seq::empty(), Seq::empty());
    proof {
        assert(out@ =~= acc0.0);
        assert(errors@.map_values(|e: ConfigError| e@) =~= acc0.1);
    }
    let ghost acc1 = if input.attrs@.clone is Some {
        spec_step(acc0, Ok(clone::spec_derive_clone(*input)))
    } else {
        acc0
    };
    if input.attrs.clone.is_some() {
        let s = clone::derive_clone(input);
        out.append(s.as_str());
        out.append(" ");
    }
    proof {
        assert(out@ == acc1.0);
        assert(errors@.map_values(|e: ConfigError| e@) == acc1.1);
    }
    let ghost acc2 = if input.attrs@.copy is Some {
        spec_step(acc1, Ok(clone::spec_derive_copy(*input)))
    } else {
        acc1
    };
    if input.attrs.copy.is_some() {
        let s = clone::derive_copy(input);
        out.append(s.as_str());
        out.append(" ");
    }
    proof {
        assert(out@ == acc2.0);
        assert(errors@.map_values(|e: ConfigError| e@) == acc2.1);
    }
    let ghost acc3 = if input.attrs@.debug is Some {
        spec_step(acc2, Ok(debug::spec_derive_debug(*input)))
    } else {
        acc2
    };
    if input.attrs.debug.is_some() {
        let s = debug::derive(input);
        out.append(s.as_str());
        out.append(" ");
    }
    proof {
        assert(out@ == acc3.0);
        assert(errors@.map_values(|e: ConfigError| e@) == acc3.1);
    }
    let ghost acc4 = if input.attrs@.default is Some {
        spec_step(acc3, default::spec_derive_default(*input))
    } else {
        acc3
    };
    if input.attrs.default.is_some() {
        match default::derive(input) {
            Ok(s) => {
                out.append(s.as_str());
                out.append(" ");
            },
            Err(e) => {
                let ghost before = errors@.map_values(|x: ConfigError| x@);
                errors.push(e);
                proof {
                    assert(errors@.map_values(|x: ConfigError| x@) =~= before.push(e@));
                }
            },
        }
    }
    proof {
        assert(out@ == acc4.0);
        assert(errors@.map_values(|e: ConfigError| e@) == acc4.1);
    }
    let ghost acc5 = if input.attrs@.eq is Some {
        spec_step(acc4, Ok(cmp::spec_derive_eq(*input)))
    } else {
        acc4
    };
    if input.attrs.eq.is_some() {
        let s = cmp::derive_eq(input);
        out.append(s.as_str());
        out.append(" ");
    }
    proof {
        assert(out@ == acc5.0);
        assert(errors@.map_values(|e: ConfigError| e@) == acc5.1);
    }
    let ghost acc6 = if input.attrs@.hash is Some {
        spec_step(acc5, Ok(hash::spec_derive_hash(*input)))
    } else {
        acc5
    };
    if input.attrs.hash.is_some() {
        let s = hash::derive(input);
        out.append(s.as_str());
        out.append(" ");
    }
    proof {
        assert(out@ == acc6.0);
        assert(errors@.map_values(|e: ConfigError| e@) == acc6.1);
    }
    let ghost acc7 = if input.attrs@.partial_eq is Some {
        spec_step(acc6, cmp::spec_derive_partial_eq(*input))
    } else {
        acc6
    };
    if input.attrs.partial_eq.is_some() {
        match cmp::derive_partial_eq(input) {
            Ok(s) => {
                out.append(s.as_str());
                out.append(" ");
            },
            Err(e) => {
                let ghost before = errors@.map_values(|x: ConfigError| x@);
                errors.push(e);
                proof {
                    assert(errors@.map_values(|x: ConfigError| x@) =~= before.push(e@));
                }
            },
        }
    }
    proof {
        assert(out@ == acc7.0);
        assert(errors@.map_values(|e: ConfigError| e@) == acc7.1);
    }
    let ghost acc8 = if input.attrs@.partial_ord is Some {
        spec_step(acc7, cmp::spec_derive_partial_ord(*input))
    } else {
        acc7
    };
    if input.attrs.partial_ord.is_some() {
        match cmp::derive_partial_ord(input) {
            Ok(s) => {
                out.append(s.as_str());
                out.append(" ");
            },
            Err(e) => {
                let ghost before = errors@.map_values(|x: ConfigError| x@);
                errors.push(e);
                proof {
                    assert(errors@.map_values(|x: ConfigError| x@) =~= before.push(e@));
                }
            },
        }
    }
    proof {
        assert(out@ == acc8.0);
        assert(errors@.map_values(|e: ConfigError| e@) == acc8.1);
    }
    let ghost acc9 = if input.attrs@.ord is Some {
        spec_step(acc8, cmp::spec_derive_ord(*input))
    } else {
        acc8
    };
    if input.attrs.ord.is_some() {
        match cmp::derive_ord(input) {
            Ok(s) => {
                out.append(s.as_str());
                out.append(" ");
            },
            Err(e) => {
                let ghost before = errors@.map_values(|x: ConfigError| x@);
                errors.push(e);
                proof {
                    assert(errors@.map_values(|x: ConfigError| x@) =~= before.push(e@));
                }
            },
        }
    }
    proof {
        assert(out@ == acc9.0);
        assert(errors@.map_values(|e: ConfigError| e@) == acc9.1);
    }
    proof {
        assert(spec_derive_impls(*input) == acc9);
    }
    (out, errors)
}

} // verus!
