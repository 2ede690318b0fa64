//! The configuration model: parsing and validation of the per-type and
//! per-field directive annotations for every supported trait, with the
//! error taxonomy the host surfaces as compile-time diagnostics.
//!
//! An annotation is one of three shapes: a bare trait name (`Debug`), a
//! trait name with one string value (`Debug = "transparent"`, a shorthand
//! whose value names the directive), or a trait name with a parenthesized
//! `key = "value"` list (`Debug(bound = "T: Debug", ignore = "true")`).

use vstd::prelude::*;

use crate::bound::{preds_view, PredV, Predicate};
use crate::utils::{push_char, str_eq};

verus! {

// ===========================================================================
// Lexical helpers for the directive value grammar.
// ===========================================================================

/// `s` without its leading spaces.
pub open spec fn spec_trim_start(s: Seq<char>) -> Seq<char>
    decreases s.len(),
{
    if s.len() > 0 && s[0] == ' ' {
        spec_trim_start(s.subrange(1, s.len() as int))
    } else {
        s
    }
}

/// `s` without its trailing spaces.
pub open spec fn spec_trim_end(s: Seq<char>) -> Seq<char>
    decreases s.len(),
{
    if s.len() > 0 && s[s.len() - 1] == ' ' {
        spec_trim_end(s.subrange(0, s.len() - 1))
    } else {
        s
    }
}

/// `s` without leading and trailing spaces.
pub open spec fn spec_trim(s: Seq<char>) -> Seq<char> {
    spec_trim_end(spec_trim_start(s))
}

fn trim_start_str(s: &str) -> (r: String)
    ensures
        r@ == spec_trim_start(s@),
    decreases s@.len(),
{
    let n = s.unicode_len();
    if n > 0 && s.get_char(0) == ' ' {
        let sub = s.substring_char(1, n);
        trim_start_str(sub)
    } else {
        s.to_owned()
    }
}

fn trim_end_str(s: &str) -> (r: String)
    ensures
        r@ == spec_trim_end(s@),
    decreases s@.len(),
{
    let n = s.unicode_len();
    if n > 0 && s.get_char(n - 1) == ' ' {
        let sub = s.substring_char(0, n - 1);
        trim_end_str(sub)
    } else {
        s.to_owned()
    }
}

/// Removes leading and trailing spaces.
pub fn trim(s: &str) -> (r: String)
    ensures
        r@ == spec_trim(s@),
{
    let a = trim_start_str(s);
    trim_end_str(a.as_str())
}

/// The index of the first occurrence of `c` in `s`, or `-1` if there is
/// none.
pub open spec fn spec_find(s: Seq<char>, c: char) -> int
    decreases s.len(),
{
    if s.len() == 0 {
        -1
    } else if s[0] == c {
        0
    } else {
        let r = spec_find(s.subrange(1, s.len() as int), c);
        if r < 0 {
            -1
        } else {
            r + 1
        }
    }
}

/// Finds the first occurrence of `c` in `s`.
pub fn find_char(s: &str, c: char) -> (r: Option<usize>)
    ensures
        match r {
            Some(i) => i < s@.len() && spec_find(s@, c) == i as int,
            None => spec_find(s@, c) == -1,
        },
    decreases s@.len(),
{
    let n = s.unicode_len();
    if n == 0 {
        None
    } else if s.get_char(0) == c {
        Some(0)
    } else {
        let sub = s.substring_char(1, n);
        match find_char(sub, c) {
            Some(k) => Some(k + 1),
            None => None,
        }
    }
}

/// Whether `c` can start a parameter identifier (a letter, an underscore,
/// or the quote of a lifetime).
pub open spec fn spec_ident_start(c: char) -> bool {
    (97 <= c as u32 && c as u32 <= 122) || (65 <= c as u32 && c as u32 <= 90) || c == '_' || c
        == '\''
}

/// Whether `c` can continue a parameter identifier.
pub open spec fn spec_ident_cont(c: char) -> bool {
    spec_ident_start(c) || (48 <= c as u32 && c as u32 <= 57)
}

/// Whether `s` is a parameter identifier.
pub open spec fn spec_is_ident(s: Seq<char>) -> bool {
    &&& s.len() > 0
    &&& spec_ident_start(s[0])
    &&& forall|k: int| 1 <= k < s.len() ==> spec_ident_cont(#[trigger] s[k])
}

fn ident_start(c: char) -> (r: bool)
    ensures
        r == spec_ident_start(c),
{
    let u = c as u32;
    (97 <= u && u <= 122) || (65 <= u && u <= 90) || c == '_' || c == '\''
}

fn ident_cont(c: char) -> (r: bool)
    ensures
        r == spec_ident_cont(c),
{
    let u = c as u32;
    ident_start(c) || (48 <= u && u <= 57)
}

/// Whether `s` is a parameter identifier.
pub fn is_ident(s: &str) -> (r: bool)
    ensures
        r == spec_is_ident(s@),
{
    let n = s.unicode_len();
    if n == 0 {
        return false;
    }
    if !ident_start(s.get_char(0)) {
        return false;
    }
    let mut i: usize = 1;
    while i < n
        invariant
            1 <= i <= n,
            n == s@.len(),
            spec_ident_start(s@[0]),
            forall|k: int| 1 <= k < i ==> spec_ident_cont(#[trigger] s@[k]),
        decreases n - i,
    {
        if !ident_cont(s.get_char(i)) {
            return false;
        }
        i += 1;
    }
    true
}

/// Splitting at every comma, with `cur` the piece read so far.
pub open spec fn spec_split_acc(s: Seq<char>, cur: Seq<char>) -> Seq<Seq<char>>
    decreases s.len(),
{
    if s.len() == 0 {
        seq![cur]
    } else if s[0] == ',' {
        seq![cur] + spec_split_acc(s.subrange(1, s.len() as int), Seq::empty())
    } else {
        spec_split_acc(s.subrange(1, s.len() as int), cur.push(s[0]))
    }
}

/// The pieces of `s` between commas. A constraint list is comma-free in
/// each constraint, so no nesting is tracked.
pub open spec fn spec_split(s: Seq<char>) -> Seq<Seq<char>> {
    spec_split_acc(s, Seq::empty())
}

/// The views of a string list.
pub open spec fn str_views(v: Seq<String>) -> Seq<Seq<char>> {
    v.map_values(|x: String| x@)
}

fn split_rec(s: &str, cur: String) -> (r: Vec<String>)
    ensures
        str_views(r@) == spec_split_acc(s@, cur@),
    decreases s@.len(),
{
    let n = s.unicode_len();
    if n == 0 {
        let mut v: Vec<String> = Vec::new();
        v.push(cur);
        assert(str_views(v@) =~= spec_split_acc(s@, cur@));
        v
    } else {
        let c = s.get_char(0);
        let sub = s.substring_char(1, n);
        if c == ',' {
            let mut r = split_rec(sub, String::new());
            r.insert(0, cur);
            assert(str_views(r@) =~= spec_split_acc(s@, cur@));
            r
        } else {
            let mut cur2 = cur;
            push_char(&mut cur2, c);
            let r = split_rec(sub, cur2);
            r
        }
    }
}

/// Splits `s` at every comma.
pub fn split_commas(s: &str) -> (r: Vec<String>)
    ensures
        str_views(r@) == spec_split(s@),
{
    split_rec(s, String::new())
}

/// Whether `c` is a decimal digit.
pub open spec fn spec_is_digit(c: char) -> bool {
    48 <= c as u32 && c as u32 <= 57
}

/// The value of a decimal digit.
pub open spec fn spec_digit_val(c: char) -> int {
    c as u32 - 48
}

/// Whether every character of `s` is a decimal digit.
pub open spec fn spec_all_digits(s: Seq<char>) -> bool {
    forall|k: int| 0 <= k < s.len() ==> spec_is_digit(#[trigger] s[k])
}

/// The value of a decimal digit string, most significant digit first.
pub open spec fn spec_dec_val(s: Seq<char>) -> int
    decreases s.len(),
{
    if s.len() == 0 {
        0
    } else {
        spec_dec_val(s.subrange(0, s.len() - 1)) * 10 + spec_digit_val(s[s.len() - 1])
    }
}

/// The `n`-th power of ten.
pub open spec fn pow10(n: nat) -> int
    decreases n,
{
    if n == 0 {
        1
    } else {
        10 * pow10((n - 1) as nat)
    }
}

proof fn lemma_dec_val_bound(s: Seq<char>)
    requires
        spec_all_digits(s),
    ensures
        0 <= spec_dec_val(s) < pow10(s.len()),
    decreases s.len(),
{
    if s.len() > 0 {
        let pre = s.subrange(0, s.len() - 1);
        assert forall|k: int| 0 <= k < pre.len() implies spec_is_digit(#[trigger] pre[k]) by {
            assert(pre[k] == s[k]);
        }
        lemma_dec_val_bound(pre);
        assert(spec_is_digit(s[s.len() - 1]));
        assert(pow10(s.len()) == 10 * pow10((s.len() - 1) as nat));
    }
}

proof fn lemma_pow10_le(a: nat, b: nat)
    requires
        a <= b,
    ensures
        pow10(a) <= pow10(b),
    decreases b,
{
    if a < b {
        lemma_pow10_le(a, (b - 1) as nat);
        lemma_pow10_pos((b - 1) as nat);
    }
}

proof fn lemma_pow10_pos(n: nat)
    ensures
        pow10(n) >= 1,
    decreases n,
{
    if n > 0 {
        lemma_pow10_pos((n - 1) as nat);
    }
}

fn digit_value(c: char) -> (r: Option<u64>)
    ensures
        match r {
            Some(v) => spec_is_digit(c) && v == spec_digit_val(c),
            None => !spec_is_digit(c),
        },
{
    let u = c as u32;
    if 48 <= u && u <= 57 {
        Some((u - 48) as u64)
    } else {
        None
    }
}

fn parse_digits_rec(s: &str) -> (r: Option<u64>)
    requires
        s@.len() <= 18,
    ensures
        match r {
            Some(v) => spec_all_digits(s@) && v == spec_dec_val(s@),
            None => !spec_all_digits(s@),
        },
    decreases s@.len(),
{
    let n = s.unicode_len();
    if n == 0 {
        assert(spec_all_digits(s@));
        return Some(0);
    }
    let c = s.get_char(n - 1);
    match digit_value(c) {
        None => {
            assert(!spec_all_digits(s@));
            None
        },
        Some(d) => {
            let pre = s.substring_char(0, n - 1);
            match parse_digits_rec(pre) {
                None => {
                    proof {
                        if spec_all_digits(s@) {
                            assert forall|k: int| 0 <= k < pre@.len() implies spec_is_digit(
                                #[trigger] pre@[k],
                            ) by {
                                assert(pre@[k] == s@[k]);
                            }
                        }
                    }
                    None
                },
                Some(v) => {
                    proof {
                        lemma_dec_val_bound(pre@);
                        assert(pow10(17) == 100000000000000000) by {
                            reveal_with_fuel(pow10, 19);
                        }
                        assert(pow10(pre@.len()) <= pow10(17)) by {
                            lemma_pow10_le(pre@.len(), 17);
                        }
                    }
                    let out = v * 10 + d;
                    assert(spec_all_digits(s@)) by {
                        assert forall|k: int| 0 <= k < s@.len() implies spec_is_digit(
                            #[trigger] s@[k],
                        ) by {
                            if k < s@.len() - 1 {
                                assert(s@[k] == pre@[k]);
                            } else {
                                assert(s@[k] == c);
                            }
                        }
                    }
                    Some(out)
                },
            }
        },
    }
}

/// Parses a nonempty decimal digit string of at most ten digits.
pub fn parse_digits(s: &str) -> (r: Option<u64>)
    ensures
        match r {
            Some(v) => 1 <= s@.len() <= 10 && spec_all_digits(s@) && v == spec_dec_val(s@),
            None => !(1 <= s@.len() <= 10 && spec_all_digits(s@)),
        },
{
    let n = s.unicode_len();
    if n == 0 || n > 10 {
        None
    } else {
        parse_digits_rec(s)
    }
}

/// Parses a nonempty decimal digit string of at most eighteen digits,
/// enough for any integer literal the value model holds.
pub fn parse_digits_long(s: &str) -> (r: Option<u64>)
    ensures
        match r {
            Some(v) => 1 <= s@.len() <= 18 && spec_all_digits(s@) && v == spec_dec_val(s@),
            None => !(1 <= s@.len() <= 18 && spec_all_digits(s@)),
        },
{
    let n = s.unicode_len();
    if n == 0 || n > 18 {
        None
    } else {
        parse_digits_rec(s)
    }
}

// ===========================================================================
// Constraint lists and ranges.
// ===========================================================================

/// The parse of one constraint `param: bounds`: the trimmed parameter must
/// be an identifier and the trimmed bound text must be nonempty.
pub open spec fn spec_parse_pred(s: Seq<char>) -> Option<PredV> {
    let i = spec_find(s, ':');
    if i < 0 {
        None
    } else {
        let p = spec_trim(s.subrange(0, i));
        let b = spec_trim(s.subrange(i + 1, s.len() as int));
        if spec_is_ident(p) && b.len() > 0 {
            Some(PredV { param: p, bounds: b })
        } else {
            None
        }
    }
}

/// Parses one constraint of the form `param: bounds`.
pub fn parse_pred(s: &str) -> (r: Option<Predicate>)
    ensures
        match r {
            Some(p) => spec_parse_pred(s@) == Some(p@),
            None => spec_parse_pred(s@) is None,
        },
{
    let n = s.unicode_len();
    match find_char(s, ':') {
        None => None,
        Some(i) => {
            let p = trim(s.substring_char(0, i));
            let b = trim(s.substring_char(i + 1, n));
            if is_ident(p.as_str()) && b.as_str().unicode_len() > 0 {
                Some(Predicate { param: p, bounds: b })
            } else {
                None
            }
        },
    }
}

/// The parses of a sequence of constraint pieces; `None` as soon as one
/// piece fails to parse.
pub open spec fn spec_parse_pieces(ps: Seq<Seq<char>>) -> Option<Seq<PredV>>
    decreases ps.len(),
{
    if ps.len() == 0 {
        Some(Seq::empty())
    } else {
        match spec_parse_pred(ps[0]) {
            None => None,
            Some(p) => match spec_parse_pieces(ps.subrange(1, ps.len() as int)) {
                None => None,
                Some(r) => Some(seq![p] + r),
            },
        }
    }
}

/// The parse of a whole constraint list: the empty string means "no
/// constraints needed", otherwise every comma-separated piece must parse.
pub open spec fn spec_parse_list(s: Seq<char>) -> Option<Seq<PredV>> {
    if s.len() == 0 {
        Some(Seq::empty())
    } else {
        spec_parse_pieces(spec_split(s))
    }
}

fn parse_pieces_rec(pieces: &Vec<String>, i: usize) -> (r: Option<Vec<Predicate>>)
    requires
        i <= pieces@.len(),
    ensures
        match r {
            Some(v) => spec_parse_pieces(str_views(pieces@).subrange(
                i as int,
                pieces@.len() as int,
            )) == Some(preds_view(v@)),
            None => spec_parse_pieces(str_views(pieces@).subrange(i as int, pieces@.len() as int))
                is None,
        },
    decreases pieces@.len() - i,
{
    let ghost tail = str_views(pieces@).subrange(i as int, pieces@.len() as int);
    if i == pieces.len() {
        let v: Vec<Predicate> = Vec::new();
        assert(preds_view(v@) =~= Seq::<PredV>::empty());
        Some(v)
    } else {
        assert(tail[0] == pieces@[i as int]@);
        match parse_pred(pieces[i].as_str()) {
            None => None,
            Some(p) => {
                match parse_pieces_rec(pieces, i + 1) {
                    None => {
                        proof {
                            assert(tail.subrange(1, tail.len() as int) =~= str_views(
                                pieces@,
                            ).subrange(i + 1, pieces@.len() as int));
                        }
                        None
                    },
                    Some(mut v) => {
                        v.insert(0, p);
                        proof {
                            assert(tail.subrange(1, tail.len() as int) =~= str_views(
                                pieces@,
                            ).subrange(i + 1, pieces@.len() as int));
                            assert(preds_view(v@) =~= seq![p@] + preds_view(
                                v@.subrange(1, v@.len() as int),
                            ));
                        }
                        Some(v)
                    },
                }
            },
        }
    }
}

/// Parses a constraint list: comma-separated `param: bounds` constraints,
/// or the empty string for an explicitly empty list.
pub fn parse_constraint_list(s: &str) -> (r: Option<Vec<Predicate>>)
    ensures
        match r {
            Some(v) => spec_parse_list(s@) == Some(preds_view(v@)),
            None => spec_parse_list(s@) is None,
        },
{
    let n = s.unicode_len();
    if n == 0 {
        let v: Vec<Predicate> = Vec::new();
        assert(preds_view(v@) =~= Seq::<PredV>::empty());
        Some(v)
    } else {
        let pieces = split_commas(s);
        let r = parse_pieces_rec(&pieces, 0);
        proof {
            assert(str_views(pieces@).subrange(0, pieces@.len() as int) =~= spec_split(s@));
        }
        r
    }
}

/// The parse of a signed integer literal: an optional minus sign and at
/// most eighteen digits.
pub open spec fn spec_parse_int_lit(s: Seq<char>) -> Option<int> {
    if s.len() > 0 && s[0] == '-' {
        let d = s.subrange(1, s.len() as int);
        if 1 <= d.len() <= 18 && spec_all_digits(d) {
            Some(-spec_dec_val(d))
        } else {
            None
        }
    } else if 1 <= s.len() <= 18 && spec_all_digits(s) {
        Some(spec_dec_val(s))
    } else {
        None
    }
}

/// Parses a signed integer literal.
pub fn parse_int_lit(s: &str) -> (r: Option<i64>)
    ensures
        match r {
            Some(v) => spec_parse_int_lit(s@) == Some(v as int),
            None => spec_parse_int_lit(s@) is None,
        },
{
    let n = s.unicode_len();
    if n > 0 && s.get_char(0) == '-' {
        let d = s.substring_char(1, n);
        match parse_digits_long(d) {
            Some(v) => {
                proof {
                    lemma_dec_val_bound(d@);
                    assert(pow10(18) == 1000000000000000000) by {
                        reveal_with_fuel(pow10, 20);
                    }
                    assert(pow10(d@.len()) <= pow10(18)) by {
                        lemma_pow10_le(d@.len(), 18);
                    }
                }
                Some(-(v as i64))
            },
            None => None,
        }
    } else {
        match parse_digits_long(s) {
            Some(v) => {
                proof {
                    lemma_dec_val_bound(s@);
                    assert(pow10(18) == 1000000000000000000) by {
                        reveal_with_fuel(pow10, 20);
                    }
                    assert(pow10(s@.len()) <= pow10(18)) by {
                        lemma_pow10_le(s@.len(), 18);
                    }
                }
                Some(v as i64)
            },
            None => None,
        }
    }
}

/// The parse of a display range `a..b`: either side may be empty and then
/// counts as zero. Each side is limited to ten digits.
pub open spec fn spec_parse_range(s: Seq<char>) -> Option<(int, int)> {
    let i = spec_find(s, '.');
    if i < 0 || i + 1 >= s.len() || s[i + 1] != '.' {
        None
    } else {
        let pre = s.subrange(0, i);
        let post = s.subrange(i + 2, s.len() as int);
        match (spec_parse_side(pre), spec_parse_side(post)) {
            (Some(a), Some(b)) => Some((a, b)),
            _ => None,
        }
    }
}

/// One side of a display range: empty means zero.
pub open spec fn spec_parse_side(s: Seq<char>) -> Option<int> {
    if s.len() == 0 {
        Some(0)
    } else if 1 <= s.len() <= 10 && spec_all_digits(s) {
        Some(spec_dec_val(s))
    } else {
        None
    }
}

fn parse_side(s: &str) -> (r: Option<u64>)
    ensures
        match r {
            Some(v) => spec_parse_side(s@) == Some(v as int),
            None => spec_parse_side(s@) is None,
        },
{
    if s.unicode_len() == 0 {
        Some(0)
    } else {
        parse_digits(s)
    }
}

/// Parses a display range directive value such as `3..`, `..4`, `3..4` or
/// `..`.
pub fn parse_range(s: &str) -> (r: Option<(u64, u64)>)
    ensures
        match r {
            Some((a, b)) => spec_parse_range(s@) == Some((a as int, b as int)),
            None => spec_parse_range(s@) is None,
        },
{
    let n = s.unicode_len();
    match find_char(s, '.') {
        None => None,
        Some(i) => {
            if i + 1 >= n {
                return None;
            }
            if s.get_char(i + 1) != '.' {
                return None;
            }
            let pre = s.substring_char(0, i);
            let post = s.substring_char(i + 2, n);
            match (parse_side(pre), parse_side(post)) {
                (Some(a), Some(b)) => Some((a, b)),
                _ => None,
            }
        },
    }
}

// ===========================================================================
// The error taxonomy.
// ===========================================================================

/// A configuration error, carrying the opaque source position of the
/// originating annotation so the host can attribute it precisely.
#[derive(Debug)]
pub enum ConfigError {
    /// An annotation names a trait this engine does not support.
    UnknownTrait { name: String, span: usize },
    /// A directive key is not recognized for the named trait.
    UnknownDirective { trait_name: String, key: String, span: usize },
    /// A boolean directive was given a value that is neither `"true"` nor
    /// `"false"` nor the directive's own name.
    InvalidBooleanValue { key: String, value: String, span: usize },
    /// A directive that requires a value was given none.
    MissingValue { key: String, span: usize },
    /// A `bound` value does not parse as a constraint list.
    InvalidBound { span: usize },
    /// A `range` value does not parse as a display range.
    InvalidRange { span: usize },
    /// A literal stood where a meta item was expected.
    ExpectedMetaItem { span: usize },
    /// A parenthesized list entry was not of the `key = "value"` form.
    ExpectedNamedValue { span: usize },
    /// A directive value was not a string literal.
    ExpectedStringLiteral { key: String, span: usize },
    /// An equality or ordering trait was requested on an enum without the
    /// `feature_allow_slow_enum` opt-in.
    EnumNotOptedIn { trait_name: String, span: usize },
    /// Zero or several variants of a Default-requesting enum carry the
    /// default-variant marker.
    AmbiguousDefaultVariant { span: usize },
}

/// The mathematical view of a [`ConfigError`].
pub enum ConfigErrorV {
    UnknownTrait { name: Seq<char>, span: int },
    UnknownDirective { trait_name: Seq<char>, key: Seq<char>, span: int },
    InvalidBooleanValue { key: Seq<char>, value: Seq<char>, span: int },
    MissingValue { key: Seq<char>, span: int },
    InvalidBound { span: int },
    InvalidRange { span: int },
    ExpectedMetaItem { span: int },
    ExpectedNamedValue { span: int },
    ExpectedStringLiteral { key: Seq<char>, span: int },
    EnumNotOptedIn { trait_name: Seq<char>, span: int },
    AmbiguousDefaultVariant { span: int },
}

impl View for ConfigError {
    type V = ConfigErrorV;

    open spec fn view(&self) -> ConfigErrorV {
        match self {
            ConfigError::UnknownTrait { name, span } => ConfigErrorV::UnknownTrait {
                name: name@,
                span: *span as int,
            },
            ConfigError::UnknownDirective { trait_name, key, span } => {
                ConfigErrorV::UnknownDirective {
                    trait_name: trait_name@,
                    key: key@,
                    span: *span as int,
                }
            },
            ConfigError::InvalidBooleanValue { key, value, span } => {
                ConfigErrorV::InvalidBooleanValue { key: key@, value: value@, span: *span as int }
            },
            ConfigError::MissingValue { key, span } => ConfigErrorV::MissingValue {
                key: key@,
                span: *span as int,
            },
            ConfigError::InvalidBound { span } => ConfigErrorV::InvalidBound {
                span: *span as int,
            },
            ConfigError::InvalidRange { span } => ConfigErrorV::InvalidRange {
                span: *span as int,
            },
            ConfigError::ExpectedMetaItem { span } => ConfigErrorV::ExpectedMetaItem {
                span: *span as int,
            },
            ConfigError::ExpectedNamedValue { span } => ConfigErrorV::ExpectedNamedValue {
                span: *span as int,
            },
            ConfigError::ExpectedStringLiteral { key, span } => {
                ConfigErrorV::ExpectedStringLiteral { key: key@, span: *span as int }
            },
            ConfigError::EnumNotOptedIn { trait_name, span } => ConfigErrorV::EnumNotOptedIn {
                trait_name: trait_name@,
                span: *span as int,
            },
            ConfigError::AmbiguousDefaultVariant { span } => {
                ConfigErrorV::AmbiguousDefaultVariant { span: *span as int }
            },
        }
    }
}

// ===========================================================================
// The raw annotation model.
// ===========================================================================

/// A literal in an annotation: only string literals are meaningful to this
/// engine.
pub enum RawLit {
    Str { value: String, span: usize },
    Other { span: usize },
}

/// A raw annotation node, mirroring the host's attribute grammar: a bare
/// word, a parenthesized list, or a `name = literal` pair.
pub enum RawMeta {
    Word { name: String, span: usize },
    List { name: String, items: Vec<RawNested>, span: usize },
    NameValue { name: String, value: RawLit, span: usize },
}

/// One element of a parenthesized annotation list.
pub enum RawNested {
    Meta(RawMeta),
    Lit(RawLit),
}

/// The source position of a literal.
pub open spec fn lit_span(l: RawLit) -> int {
    match l {
        RawLit::Str { span, .. } => span as int,
        RawLit::Other { span } => span as int,
    }
}

/// One `key = "value"` pair of a directive, or a bare shorthand value
/// (`key` absent).
pub struct MetaEntry {
    pub key: Option<String>,
    pub value: Option<String>,
    pub span: usize,
}

/// The view of a [`MetaEntry`].
pub struct EntryV {
    pub key: Option<Seq<char>>,
    pub value: Option<Seq<char>>,
    pub span: int,
}

impl View for MetaEntry {
    type V = EntryV;

    open spec fn view(&self) -> EntryV {
        EntryV {
            key: match self.key {
                Some(ref k) => Some(k@),
                None => None,
            },
            value: match self.value {
                Some(ref v) => Some(v@),
                None => None,
            },
            span: self.span as int,
        }
    }
}

/// One directive annotation reduced to its limited shape: a trait name and
/// the key/value pairs attached to it.
pub struct MetaItem {
    pub name: String,
    pub span: usize,
    pub entries: Vec<MetaEntry>,
}

/// The view of a [`MetaItem`].
pub struct MetaItemV {
    pub name: Seq<char>,
    pub span: int,
    pub entries: Seq<EntryV>,
}

impl View for MetaItem {
    type V = MetaItemV;

    open spec fn view(&self) -> MetaItemV {
        MetaItemV {
            name: self.name@,
            span: self.span as int,
            entries: self.entries@.map_values(|e: MetaEntry| e@),
        }
    }
}

/// The reduction of one nested node to a directive entry: it must be a
/// `key = "string"` pair.
pub open spec fn spec_read_entry(n: RawNested) -> Result<EntryV, ConfigErrorV> {
    match n {
        RawNested::Meta(RawMeta::NameValue { name, value, span }) => match value {
            RawLit::Str { value: v, .. } => Ok(
                EntryV { key: Some(name@), value: Some(v@), span: span as int },
            ),
            RawLit::Other { .. } => Err(
                ConfigErrorV::ExpectedStringLiteral { key: name@, span: span as int },
            ),
        },
        RawNested::Meta(RawMeta::Word { span, .. }) => Err(
            ConfigErrorV::ExpectedNamedValue { span: span as int },
        ),
        RawNested::Meta(RawMeta::List { span, .. }) => Err(
            ConfigErrorV::ExpectedNamedValue { span: span as int },
        ),
        RawNested::Lit(l) => Err(ConfigErrorV::ExpectedNamedValue { span: lit_span(l) }),
    }
}

/// The reduction of a nested list, stopping at the first offending entry.
pub open spec fn spec_read_entries(items: Seq<RawNested>) -> Result<Seq<EntryV>, ConfigErrorV>
    decreases items.len(),
{
    if items.len() == 0 {
        Ok(Seq::empty())
    } else {
        match spec_read_entry(items[0]) {
            Err(e) => Err(e),
            Ok(h) => match spec_read_entries(items.subrange(1, items.len() as int)) {
                Err(e) => Err(e),
                Ok(t) => Ok(seq![h] + t),
            },
        }
    }
}

/// The reduction of one annotation node to a [`MetaItem`]: a bare word, a
/// `name = "value"` pair, or a list of `key = "value"` pairs.
pub open spec fn spec_read_items(n: RawNested) -> Result<MetaItemV, ConfigErrorV> {
    match n {
        RawNested::Lit(l) => Err(ConfigErrorV::ExpectedMetaItem { span: lit_span(l) }),
        RawNested::Meta(m) => match m {
            RawMeta::Word { name, span } => Ok(
                MetaItemV { name: name@, span: span as int, entries: Seq::empty() },
            ),
            RawMeta::NameValue { name, value, span } => match value {
                RawLit::Str { value: v, .. } => Ok(
                    MetaItemV {
                        name: name@,
                        span: span as int,
                        entries: seq![
                            EntryV { key: None, value: Some(v@), span: span as int },
                        ],
                    },
                ),
                RawLit::Other { .. } => Err(
                    ConfigErrorV::ExpectedStringLiteral { key: name@, span: span as int },
                ),
            },
            RawMeta::List { name, items, span } => match spec_read_entries(items@) {
                Err(e) => Err(e),
                Ok(es) => Ok(MetaItemV { name: name@, span: span as int, entries: es }),
            },
        },
    }
}

fn read_entry(n: &RawNested) -> (r: Result<MetaEntry, ConfigError>)
    ensures
        match r {
            Ok(e) => spec_read_entry(*n) == Ok::<EntryV, ConfigErrorV>(e@),
            Err(e) => spec_read_entry(*n) == Err::<EntryV, ConfigErrorV>(e@),
        },
{
    match n {
        RawNested::Meta(RawMeta::NameValue { name, value, span }) => match value {
            RawLit::Str { value: v, .. } => Ok(
                MetaEntry { key: Some(name.clone()), value: Some(v.clone()), span: *span },
            ),
            RawLit::Other { .. } => Err(
                ConfigError::ExpectedStringLiteral { key: name.clone(), span: *span },
            ),
        },
        RawNested::Meta(RawMeta::Word { span, .. }) => Err(
            ConfigError::ExpectedNamedValue { span: *span },
        ),
        RawNested::Meta(RawMeta::List { span, .. }) => Err(
            ConfigError::ExpectedNamedValue { span: *span },
        ),
        RawNested::Lit(RawLit::Str { span, .. }) => Err(
            ConfigError::ExpectedNamedValue { span: *span },
        ),
        RawNested::Lit(RawLit::Other { span }) => Err(
            ConfigError::ExpectedNamedValue { span: *span },
        ),
    }
}

fn read_entries_rec(items: &Vec<RawNested>, i: usize) -> (r: Result<Vec<MetaEntry>, ConfigError>)
    requires
        i <= items@.len(),
    ensures
        match r {
            Ok(es) => spec_read_entries(items@.subrange(i as int, items@.len() as int)) == Ok::<
                Seq<EntryV>,
                ConfigErrorV,
            >(es@.map_values(|e: MetaEntry| e@)),
            Err(e) => spec_read_entries(items@.subrange(i as int, items@.len() as int)) == Err::<
                Seq<EntryV>,
                ConfigErrorV,
            >(e@),
        },
    decreases items@.len() - i,
{
    let ghost tail = items@.subrange(i as int, items@.len() as int);
    if i == items.len() {
        let es: Vec<MetaEntry> = Vec::new();
        assert(es@.map_values(|e: MetaEntry| e@) =~= Seq::<EntryV>::empty());
        Ok(es)
    } else {
        assert(tail[0] == items@[i as int]);
        match read_entry(&items[i]) {
            Err(e) => Err(e),
            Ok(h) => {
                match read_entries_rec(items, i + 1) {
                    Err(e) => {
                        proof {
                            assert(tail.subrange(1, tail.len() as int) =~= items@.subrange(
                                i + 1,
                                items@.len() as int,
                            ));
                        }
                        Err(e)
                    },
                    Ok(mut es) => {
                        let ghost pre = es@;
                        es.insert(0, h);
                        proof {
                            assert(tail.subrange(1, tail.len() as int) =~= items@.subrange(
                                i + 1,
                                items@.len() as int,
                            ));
                            assert(es@ =~= seq![h] + pre);
                            assert(es@.map_values(|e: MetaEntry| e@) =~= seq![h@] + pre.map_values(
                                |e: MetaEntry| e@,
                            ));
                        }
                        Ok(es)
                    },
                }
            },
        }
    }
}

/// Parses one annotation node into the limited [`MetaItem`] shape.
pub fn read_items(n: &RawNested) -> (r: Result<MetaItem, ConfigError>)
    ensures
        match r {
            Ok(mi) => spec_read_items(*n) == Ok::<MetaItemV, ConfigErrorV>(mi@),
            Err(e) => spec_read_items(*n) == Err::<MetaItemV, ConfigErrorV>(e@),
        },
{
    match n {
        RawNested::Lit(RawLit::Str { span, .. }) => Err(
            ConfigError::ExpectedMetaItem { span: *span },
        ),
        RawNested::Lit(RawLit::Other { span }) => Err(
            ConfigError::ExpectedMetaItem { span: *span },
        ),
        RawNested::Meta(m) => match m {
            RawMeta::Word { name, span } => {
                let mi = MetaItem { name: name.clone(), span: *span, entries: Vec::new() };
                assert(mi@.entries =~= Seq::<EntryV>::empty());
                Ok(mi)
            },
            RawMeta::NameValue { name, value, span } => match value {
                RawLit::Str { value: v, .. } => {
                    let mut entries: Vec<MetaEntry> = Vec::new();
                    entries.push(MetaEntry { key: None, value: Some(v.clone()), span: *span });
                    let mi = MetaItem { name: name.clone(), span: *span, entries };
                    assert(mi@.entries =~= seq![
                        EntryV { key: None, value: Some(v@), span: *span as int },
                    ]);
                    Ok(mi)
                },
                RawLit::Other { .. } => Err(
                    ConfigError::ExpectedStringLiteral { key: name.clone(), span: *span },
                ),
            },
            RawMeta::List { name, items, span } => {
                match read_entries_rec(items, 0) {
                    Err(e) => {
                        proof {
                            assert(items@.subrange(0, items@.len() as int) =~= items@);
                        }
                        Err(e)
                    },
                    Ok(es) => {
                        proof {
                            assert(items@.subrange(0, items@.len() as int) =~= items@);
                        }
                        let mi = MetaItem { name: name.clone(), span: *span, entries: es };
                        Ok(mi)
                    },
                }
            },
        },
    }
}

/// Selects the directive payload of an annotation: the items of a
/// parenthesized list named `derivative`.
pub fn derivative_attribute(m: &RawMeta) -> (r: Option<&Vec<RawNested>>)
    ensures
        match *m {
            RawMeta::List { ref name, ref items, .. } => {
                if name@ == "derivative"@ {
                    match r {
                        Some(v) => v@ == items@,
                        None => false,
                    }
                } else {
                    r is None
                }
            },
            _ => r is None,
        },
{
    match m {
        RawMeta::List { name, items, .. } => {
            if str_eq(name.as_str(), "derivative") {
                Some(items)
            } else {
                None
            }
        },
        _ => None,
    }
}

/// The meaning of a boolean directive value: absent means `default`,
/// `"true"` and `"false"` mean themselves, and the directive's own name is
/// shorthand for `true`.
pub open spec fn spec_parse_bool(
    v: Option<Seq<char>>,
    default: bool,
    name: Seq<char>,
    span: int,
) -> Result<bool, ConfigErrorV> {
    match v {
        None => Ok(default),
        Some(s) => if s == "true"@ {
            Ok(true)
        } else if s == "false"@ {
            Ok(false)
        } else if s == name {
            Ok(true)
        } else {
            Err(ConfigErrorV::InvalidBooleanValue { key: name, value: s, span })
        },
    }
}

/// Parses a boolean directive value.
pub fn parse_boolean_meta_item(
    item: &Option<String>,
    default: bool,
    name: &str,
    span: usize,
) -> (r: Result<bool, ConfigError>)
    ensures
        match r {
            Ok(b) => spec_parse_bool(
                match *item {
                    Some(ref s) => Some(s@),
                    None => None,
                },
                default,
                name@,
                span as int,
            ) == Ok::<bool, ConfigErrorV>(b),
            Err(e) => spec_parse_bool(
                match *item {
                    Some(ref s) => Some(s@),
                    None => None,
                },
                default,
                name@,
                span as int,
            ) == Err::<bool, ConfigErrorV>(e@),
        },
{
    match item {
        None => Ok(default),
        Some(s) => {
            if str_eq(s.as_str(), "true") {
                Ok(true)
            } else if str_eq(s.as_str(), "false") {
                Ok(false)
            } else if str_eq(s.as_str(), name) {
                Ok(true)
            } else {
                Err(
                    ConfigError::InvalidBooleanValue {
                        key: name.to_owned(),
                        value: s.clone(),
                        span,
                    },
                )
            }
        },
    }
}

// ===========================================================================
// Configuration sections.
// ===========================================================================

/// The directives of one trait at type (or variant) granularity: an
/// optional explicit constraint list, and one boolean flag whose meaning
/// depends on the trait (`clone_from` for Clone, `transparent` for Debug,
/// `new` for Default, `feature_allow_slow_enum` for the comparison
/// traits).
pub struct InputSection {
    pub bounds: Option<Vec<Predicate>>,
    pub flag: bool,
}

/// The view of an [`InputSection`].
pub struct InputSectionV {
    pub bounds: Option<Seq<PredV>>,
    pub flag: bool,
}

/// The directives of one trait at field granularity: an optional explicit
/// constraint list, an optional custom function path (`clone_with`,
/// `format_with`, `hash_with` or `compare_with`), the ignore flag, an
/// optional default-value expression, and an optional display range.
pub struct FieldSection {
    pub bounds: Option<Vec<Predicate>>,
    pub with: Option<String>,
    pub ignore: bool,
    pub value: Option<String>,
    pub range: Option<(u64, u64)>,
}

/// The view of a [`FieldSection`].
pub struct FieldSectionV {
    pub bounds: Option<Seq<PredV>>,
    pub with: Option<Seq<char>>,
    pub ignore: bool,
    pub value: Option<Seq<char>>,
    pub range: Option<(int, int)>,
}

/// The views of an optional predicate list.
pub open spec fn opt_preds_view(b: Option<Vec<Predicate>>) -> Option<Seq<PredV>> {
    match b {
        Some(v) => Some(preds_view(v@)),
        None => None,
    }
}

impl View for InputSection {
    type V = InputSectionV;

    open spec fn view(&self) -> InputSectionV {
        InputSectionV { bounds: opt_preds_view(self.bounds), flag: self.flag }
    }
}

impl View for FieldSection {
    type V = FieldSectionV;

    open spec fn view(&self) -> FieldSectionV {
        FieldSectionV {
            bounds: opt_preds_view(self.bounds),
            with: match self.with {
                Some(ref s) => Some(s@),
                None => None,
            },
            ignore: self.ignore,
            value: match self.value {
                Some(ref s) => Some(s@),
                None => None,
            },
            range: match self.range {
                Some((a, b)) => Some((a as int, b as int)),
                None => None,
            },
        }
    }
}

/// A fresh input section with no directives.
pub open spec fn input_section_empty() -> InputSectionV {
    InputSectionV { bounds: None, flag: false }
}

/// A fresh field section with no directives.
pub open spec fn field_section_empty() -> FieldSectionV {
    FieldSectionV { bounds: None, with: None, ignore: false, value: None, range: None }
}

impl InputSection {
    /// A section with no directives yet.
    pub fn empty() -> (r: InputSection)
        ensures
            r@ == input_section_empty(),
    {
        InputSection { bounds: None, flag: false }
    }
}

impl FieldSection {
    /// A section with no directives yet.
    pub fn empty() -> (r: FieldSection)
        ensures
            r@ == field_section_empty(),
    {
        FieldSection { bounds: None, with: None, ignore: false, value: None, range: None }
    }
}

/// One of the nine supported traits, used to select the relevant section
/// of a configuration.
#[derive(Clone, Copy, Debug, PartialEq, Eq, Structural)]
pub enum TraitKind {
    Clone,
    Copy,
    Debug,
    Default,
    Eq,
    Hash,
    PartialEq,
    PartialOrd,
    Ord,
}

/// The directive configuration of a whole type, variant, or, for the
/// field-granularity sections, of one field. A `None` section means the
/// trait was not requested at this granularity.
pub struct Input {
    pub clone: Option<InputSection>,
    pub copy: Option<InputSection>,
    pub debug: Option<InputSection>,
    pub default: Option<InputSection>,
    pub eq: Option<InputSection>,
    pub hash: Option<InputSection>,
    pub partial_eq: Option<InputSection>,
    pub partial_ord: Option<InputSection>,
    pub ord: Option<InputSection>,
}

/// The view of an [`Input`] configuration.
pub struct InputV {
    pub clone: Option<InputSectionV>,
    pub copy: Option<InputSectionV>,
    pub debug: Option<InputSectionV>,
    pub default: Option<InputSectionV>,
    pub eq: Option<InputSectionV>,
    pub hash: Option<InputSectionV>,
    pub partial_eq: Option<InputSectionV>,
    pub partial_ord: Option<InputSectionV>,
    pub ord: Option<InputSectionV>,
}

/// The view of an optional input section.
pub open spec fn opt_sec_view(s: Option<InputSection>) -> Option<InputSectionV> {
    match s {
        Some(x) => Some(x@),
        None => None,
    }
}

impl View for Input {
    type V = InputV;

    open spec fn view(&self) -> InputV {
        InputV {
            clone: opt_sec_view(self.clone),
            copy: opt_sec_view(self.copy),
            debug: opt_sec_view(self.debug),
            default: opt_sec_view(self.default),
            eq: opt_sec_view(self.eq),
            hash: opt_sec_view(self.hash),
            partial_eq: opt_sec_view(self.partial_eq),
            partial_ord: opt_sec_view(self.partial_ord),
            ord: opt_sec_view(self.ord),
        }
    }
}

/// The empty type-granularity configuration.
pub open spec fn input_v_empty() -> InputV {
    InputV {
        clone: None,
        copy: None,
        debug: None,
        default: None,
        eq: None,
        hash: None,
        partial_eq: None,
        partial_ord: None,
        ord: None,
    }
}

/// The directive configuration of one field, one section per trait.
pub struct Field {
    pub clone: FieldSection,
    pub copy: FieldSection,
    pub debug: FieldSection,
    pub default: FieldSection,
    pub eq: FieldSection,
    pub hash: FieldSection,
    pub partial_eq: FieldSection,
    pub partial_ord: FieldSection,
    pub ord: FieldSection,
}

/// The view of a [`Field`] configuration.
pub struct FieldV {
    pub clone: FieldSectionV,
    pub copy: FieldSectionV,
    pub debug: FieldSectionV,
    pub default: FieldSectionV,
    pub eq: FieldSectionV,
    pub hash: FieldSectionV,
    pub partial_eq: FieldSectionV,
    pub partial_ord: FieldSectionV,
    pub ord: FieldSectionV,
}

impl View for Field {
    type V = FieldV;

    open spec fn view(&self) -> FieldV {
        FieldV {
            clone: self.clone@,
            copy: self.copy@,
            debug: self.debug@,
            default: self.default@,
            eq: self.eq@,
            hash: self.hash@,
            partial_eq: self.partial_eq@,
            partial_ord: self.partial_ord@,
            ord: self.ord@,
        }
    }
}

/// The empty field-granularity configuration.
pub open spec fn field_v_empty() -> FieldV {
    FieldV {
        clone: field_section_empty(),
        copy: field_section_empty(),
        debug: field_section_empty(),
        default: field_section_empty(),
        eq: field_section_empty(),
        hash: field_section_empty(),
        partial_eq: field_section_empty(),
        partial_ord: field_section_empty(),
        ord: field_section_empty(),
    }
}

// ===========================================================================
// Applying directive entries to sections.
// ===========================================================================

/// The effective key of one entry: its key, or, for the shorthand form,
/// its value.
pub open spec fn spec_entry_kv(e: EntryV) -> Result<
    (Seq<char>, Option<Seq<char>>),
    ConfigErrorV,
> {
    match e.key {
        Some(k) => Ok((k, e.value)),
        None => match e.value {
            Some(v) => Ok((v, e.value)),
            None => Err(ConfigErrorV::ExpectedNamedValue { span: e.span }),
        },
    }
}

/// The parse of a `bound` directive value.
pub open spec fn spec_parse_bound_val(v: Option<Seq<char>>, span: int) -> Result<
    Seq<PredV>,
    ConfigErrorV,
> {
    match v {
        None => Err(ConfigErrorV::MissingValue { key: "bound"@, span }),
        Some(s) => match spec_parse_list(s) {
            Some(ps) => Ok(ps),
            None => Err(ConfigErrorV::InvalidBound { span }),
        },
    }
}

/// One entry applied to a type-granularity section.
pub open spec fn spec_input_entry_apply(
    cur: InputSectionV,
    e: EntryV,
    trait_name: Seq<char>,
    flag_key: Option<Seq<char>>,
) -> Result<InputSectionV, ConfigErrorV> {
    match spec_entry_kv(e) {
        Err(err) => Err(err),
        Ok((k, v)) => if k == "bound"@ {
            match spec_parse_bound_val(v, e.span) {
                Err(err) => Err(err),
                Ok(ps) => Ok(InputSectionV { bounds: Some(ps), flag: cur.flag }),
            }
        } else {
            match flag_key {
                Some(fk) => if k == fk {
                    match spec_parse_bool(v, true, fk, e.span) {
                        Err(err) => Err(err),
                        Ok(b) => Ok(InputSectionV { bounds: cur.bounds, flag: b }),
                    }
                } else {
                    Err(ConfigErrorV::UnknownDirective { trait_name, key: k, span: e.span })
                },
                None => Err(
                    ConfigErrorV::UnknownDirective { trait_name, key: k, span: e.span },
                ),
            }
        },
    }
}

/// All entries of one annotation applied in order to a type-granularity
/// section.
pub open spec fn spec_input_section_apply(
    cur: InputSectionV,
    es: Seq<EntryV>,
    trait_name: Seq<char>,
    flag_key: Option<Seq<char>>,
) -> Result<InputSectionV, ConfigErrorV>
    decreases es.len(),
{
    if es.len() == 0 {
        Ok(cur)
    } else {
        match spec_input_entry_apply(cur, es[0], trait_name, flag_key) {
            Err(err) => Err(err),
            Ok(c2) => spec_input_section_apply(
                c2,
                es.subrange(1, es.len() as int),
                trait_name,
                flag_key,
            ),
        }
    }
}

/// One entry applied to a field-granularity section. The recognized keys
/// depend on the trait: `bound` always, then optionally a custom-function
/// key, `ignore`, `value` and `range`.
pub open spec fn spec_field_entry_apply(
    cur: FieldSectionV,
    e: EntryV,
    trait_name: Seq<char>,
    with_key: Option<Seq<char>>,
    has_ignore: bool,
    has_value: bool,
    has_range: bool,
) -> Result<FieldSectionV, ConfigErrorV> {
    match spec_entry_kv(e) {
        Err(err) => Err(err),
        Ok((k, v)) => if k == "bound"@ {
            match spec_parse_bound_val(v, e.span) {
                Err(err) => Err(err),
                Ok(ps) => Ok(FieldSectionV { bounds: Some(ps), ..cur }),
            }
        } else if with_key is Some && k == with_key->0 {
            match v {
                None => Err(ConfigErrorV::MissingValue { key: k, span: e.span }),
                Some(s) => Ok(FieldSectionV { with: Some(s), ..cur }),
            }
        } else if has_ignore && k == "ignore"@ {
            match spec_parse_bool(v, true, "ignore"@, e.span) {
                Err(err) => Err(err),
                Ok(b) => Ok(FieldSectionV { ignore: b, ..cur }),
            }
        } else if has_value && k == "value"@ {
            match v {
                None => Err(ConfigErrorV::MissingValue { key: k, span: e.span }),
                Some(s) => Ok(FieldSectionV { value: Some(s), ..cur }),
            }
        } else if has_range && k == "range"@ {
            match v {
                None => Err(ConfigErrorV::MissingValue { key: k, span: e.span }),
                Some(s) => match spec_parse_range(s) {
                    Some(r) => Ok(FieldSectionV { range: Some(r), ..cur }),
                    None => Err(ConfigErrorV::InvalidRange { span: e.span }),
                },
            }
        } else {
            Err(ConfigErrorV::UnknownDirective { trait_name, key: k, span: e.span })
        },
    }
}

/// All entries of one annotation applied in order to a field-granularity
/// section.
pub open spec fn spec_field_section_apply(
    cur: FieldSectionV,
    es: Seq<EntryV>,
    trait_name: Seq<char>,
    with_key: Option<Seq<char>>,
    has_ignore: bool,
    has_value: bool,
    has_range: bool,
) -> Result<FieldSectionV, ConfigErrorV>
    decreases es.len(),
{
    if es.len() == 0 {
        Ok(cur)
    } else {
        match spec_field_entry_apply(cur, es[0], trait_name, with_key, has_ignore, has_value,
            has_range) {
            Err(err) => Err(err),
            Ok(c2) => spec_field_section_apply(
                c2,
                es.subrange(1, es.len() as int),
                trait_name,
                with_key,
                has_ignore,
                has_value,
                has_range,
            ),
        }
    }
}

fn apply_input_entry(
    cur: InputSection,
    e: &MetaEntry,
    trait_name: &str,
    flag_key: Option<&str>,
) -> (r: Result<InputSection, ConfigError>)
    ensures
        match r {
            Ok(s2) => spec_input_entry_apply(
                cur@,
                e@,
                trait_name@,
                match flag_key {
                    Some(fk) => Some(fk@),
                    None => None,
                },
            ) == Ok::<InputSectionV, ConfigErrorV>(s2@),
            Err(err) => spec_input_entry_apply(
                cur@,
                e@,
                trait_name@,
                match flag_key {
                    Some(fk) => Some(fk@),
                    None => None,
                },
            ) == Err::<InputSectionV, ConfigErrorV>(err@),
        },
{
    let k: &String = match &e.key {
        Some(k) => k,
        None => match &e.value {
            Some(v) => v,
            None => {
                return Err(ConfigError::ExpectedNamedValue { span: e.span });
            },
        },
    };
    if str_eq(k.as_str(), "bound") {
        match &e.value {
            None => Err(ConfigError::MissingValue { key: "bound".to_owned(), span: e.span }),
            Some(s) => match parse_constraint_list(s.as_str()) {
                Some(ps) => Ok(InputSection { bounds: Some(ps), flag: cur.flag }),
                None => Err(ConfigError::InvalidBound { span: e.span }),
            },
        }
    } else {
        match flag_key {
            Some(fk) => {
                if str_eq(k.as_str(), fk) {
                    match parse_boolean_meta_item(&e.value, true, fk, e.span) {
                        Err(err) => Err(err),
                        Ok(b) => Ok(InputSection { bounds: cur.bounds, flag: b }),
                    }
                } else {
                    Err(
                        ConfigError::UnknownDirective {
                            trait_name: trait_name.to_owned(),
                            key: k.clone(),
                            span: e.span,
                        },
                    )
                }
            },
            None => Err(
                ConfigError::UnknownDirective {
                    trait_name: trait_name.to_owned(),
                    key: k.clone(),
                    span: e.span,
                },
            ),
        }
    }
}

fn apply_input_section(
    cur: InputSection,
    entries: &Vec<MetaEntry>,
    trait_name: &str,
    flag_key: Option<&str>,
) -> (r: Result<InputSection, ConfigError>)
    ensures
        match r {
            Ok(s2) => spec_input_section_apply(
                cur@,
                entries@.map_values(|e: MetaEntry| e@),
                trait_name@,
                match flag_key {
                    Some(fk) => Some(fk@),
                    None => None,
                },
            ) == Ok::<InputSectionV, ConfigErrorV>(s2@),
            Err(err) => spec_input_section_apply(
                cur@,
                entries@.map_values(|e: MetaEntry| e@),
                trait_name@,
                match flag_key {
                    Some(fk) => Some(fk@),
                    None => None,
                },
            ) == Err::<InputSectionV, ConfigErrorV>(err@),
        },
{
    let ghost es = entries@.map_values(|e: MetaEntry| e@);
    let ghost fkv: Option<Seq<char>> = match flag_key {
        Some(fk) => Some(fk@),
        None => None,
    };
    let ghost target = spec_input_section_apply(cur@, es, trait_name@, fkv);
    proof {
        assert(es.subrange(0, es.len() as int) =~= es);
    }
    let mut sec = cur;
    let mut j: usize = 0;
    while j < entries.len()
        invariant
            j <= entries@.len(),
            es == entries@.map_values(|e: MetaEntry| e@),
            fkv == match flag_key {
                Some(fk) => Some(fk@),
                None => None,
            },
            target == spec_input_section_apply(cur@, es, trait_name@, fkv),
            spec_input_section_apply(
                sec@,
                es.subrange(j as int, es.len() as int),
                trait_name@,
                fkv,
            ) == target,
        decreases entries@.len() - j,
    {
        let ghost tail = es.subrange(j as int, es.len() as int);
        assert(tail[0] == es[j as int]);
        match apply_input_entry(sec, &entries[j], trait_name, flag_key) {
            Err(err) => {
                return Err(err);
            },
            Ok(s2) => {
                proof {
                    assert(tail.subrange(1, tail.len() as int) =~= es.subrange(
                        j + 1,
                        es.len() as int,
                    ));
                }
                sec = s2;
            },
        }
        j += 1;
    }
    proof {
        assert(es.subrange(entries@.len() as int, es.len() as int) =~= Seq::<EntryV>::empty());
    }
    Ok(sec)
}

fn apply_field_section(
    cur: FieldSection,
    entries: &Vec<MetaEntry>,
    trait_name: &str,
    with_key: Option<&str>,
    has_ignore: bool,
    has_value: bool,
    has_range: bool,
) -> (r: Result<FieldSection, ConfigError>)
    ensures
        match r {
            Ok(s2) => spec_field_section_apply(
                cur@,
                entries@.map_values(|e: MetaEntry| e@),
                trait_name@,
                match with_key {
                    Some(w) => Some(w@),
                    None => None,
                },
                has_ignore,
                has_value,
                has_range,
            ) == Ok::<FieldSectionV, ConfigErrorV>(s2@),
            Err(err) => spec_field_section_apply(
                cur@,
                entries@.map_values(|e: MetaEntry| e@),
                trait_name@,
                match with_key {
                    Some(w) => Some(w@),
                    None => None,
                },
                has_ignore,
                has_value,
                has_range,
            ) == Err::<FieldSectionV, ConfigErrorV>(err@),
        },
{
    let ghost es = entries@.map_values(|e: MetaEntry| e@);
    let ghost wkv: Option<Seq<char>> = match with_key {
        Some(w) => Some(w@),
        None => None,
    };
    let ghost target = spec_field_section_apply(cur@, es, trait_name@, wkv, has_ignore, has_value,
        has_range);
    proof {
        assert(es.subrange(0, es.len() as int) =~= es);
    }
    let mut sec = cur;
    let mut j: usize = 0;
    while j < entries.len()
        invariant
            j <= entries@.len(),
            es == entries@.map_values(|e: MetaEntry| e@),
            wkv == match with_key {
                Some(w) => Some(w@),
                None => None,
            },
            target == spec_field_section_apply(cur@, es, trait_name@, wkv, has_ignore, has_value,
                has_range),
            spec_field_section_apply(
                sec@,
                es.subrange(j as int, es.len() as int),
                trait_name@,
                wkv,
                has_ignore,
                has_value,
                has_range,
            ) == target,
        decreases entries@.len() - j,
    {
        let ghost tail = es.subrange(j as int, es.len() as int);
        assert(tail[0] == es[j as int]);
        match apply_field_entry(sec, &entries[j], trait_name, with_key, has_ignore, has_value,
            has_range) {
            Err(err) => {
                return Err(err);
            },
            Ok(s2) => {
                proof {
                    assert(tail.subrange(1, tail.len() as int) =~= es.subrange(
                        j + 1,
                        es.len() as int,
                    ));
                }
                sec = s2;
            },
        }
        j += 1;
    }
    proof {
        assert(es.subrange(entries@.len() as int, es.len() as int) =~= Seq::<EntryV>::empty());
    }
    Ok(sec)
}

fn apply_field_entry(
    cur: FieldSection,
    e: &MetaEntry,
    trait_name: &str,
    with_key: Option<&str>,
    has_ignore: bool,
    has_value: bool,
    has_range: bool,
) -> (r: Result<FieldSection, ConfigError>)
    ensures
        match r {
            Ok(s2) => spec_field_entry_apply(
                cur@,
                e@,
                trait_name@,
                match with_key {
                    Some(w) => Some(w@),
                    None => None,
                },
                has_ignore,
                has_value,
                has_range,
            ) == Ok::<FieldSectionV, ConfigErrorV>(s2@),
            Err(err) => spec_field_entry_apply(
                cur@,
                e@,
                trait_name@,
                match with_key {
                    Some(w) => Some(w@),
                    None => None,
                },
                has_ignore,
                has_value,
                has_range,
            ) == Err::<FieldSectionV, ConfigErrorV>(err@),
        },
{
    let k: &String = match &e.key {
        Some(k) => k,
        None => match &e.value {
            Some(v) => v,
            None => {
                return Err(ConfigError::ExpectedNamedValue { span: e.span });
            },
        },
    };
    if str_eq(k.as_str(), "bound") {
        match &e.value {
            None => Err(ConfigError::MissingValue { key: "bound".to_owned(), span: e.span }),
            Some(s) => match parse_constraint_list(s.as_str()) {
                Some(ps) => Ok(FieldSection { bounds: Some(ps), ..cur }),
                None => Err(ConfigError::InvalidBound { span: e.span }),
            },
        }
    } else if with_key.is_some() && str_eq(k.as_str(), with_key.unwrap()) {
        match &e.value {
            None => Err(ConfigError::MissingValue { key: k.clone(), span: e.span }),
            Some(s) => Ok(FieldSection { with: Some(s.clone()), ..cur }),
        }
    } else if has_ignore && str_eq(k.as_str(), "ignore") {
        match parse_boolean_meta_item(&e.value, true, "ignore", e.span) {
            Err(err) => Err(err),
            Ok(b) => Ok(FieldSection { ignore: b, ..cur }),
        }
    } else if has_value && str_eq(k.as_str(), "value") {
        match &e.value {
            None => Err(ConfigError::MissingValue { key: k.clone(), span: e.span }),
            Some(s) => Ok(FieldSection { value: Some(s.clone()), ..cur }),
        }
    } else if has_range && str_eq(k.as_str(), "range") {
        match &e.value {
            None => Err(ConfigError::MissingValue { key: k.clone(), span: e.span }),
            Some(s) => match parse_range(s.as_str()) {
                Some(ab) => Ok(FieldSection { range: Some(ab), ..cur }),
                None => Err(ConfigError::InvalidRange { span: e.span }),
            },
        }
    } else {
        Err(
            ConfigError::UnknownDirective {
                trait_name: trait_name.to_owned(),
                key: k.clone(),
                span: e.span,
            },
        )
    }
}

// ===========================================================================
// Parsing whole configurations.
// ===========================================================================

/// An existing section, or a fresh one the first time a trait is named.
pub open spec fn opt_or_empty(s: Option<InputSectionV>) -> InputSectionV {
    match s {
        Some(x) => x,
        None => input_section_empty(),
    }
}

/// One annotation applied to a type-granularity configuration: dispatch on
/// the trait name, then apply each entry to that trait's section.
pub open spec fn spec_input_apply(cur: InputV, mi: MetaItemV) -> Result<InputV, ConfigErrorV> {
    if mi.name == "Clone"@ {
        match spec_input_section_apply(opt_or_empty(cur.clone), mi.entries, "Clone"@, Some(
            "clone_from"@,
        )) {
            Err(e) => Err(e),
            Ok(s) => Ok(InputV { clone: Some(s), ..cur }),
        }
    } else if mi.name == "Copy"@ {
        match spec_input_section_apply(opt_or_empty(cur.copy), mi.entries, "Copy"@, None) {
            Err(e) => Err(e),
            Ok(s) => Ok(InputV { copy: Some(s), ..cur }),
        }
    } else if mi.name == "Debug"@ {
        match spec_input_section_apply(opt_or_empty(cur.debug), mi.entries, "Debug"@, Some(
            "transparent"@,
        )) {
            Err(e) => Err(e),
            Ok(s) => Ok(InputV { debug: Some(s), ..cur }),
        }
    } else if mi.name == "Default"@ {
        match spec_input_section_apply(opt_or_empty(cur.default), mi.entries, "Default"@, Some(
            "new"@,
        )) {
            Err(e) => Err(e),
            Ok(s) => Ok(InputV { default: Some(s), ..cur }),
        }
    } else if mi.name == "Eq"@ {
        match spec_input_section_apply(opt_or_empty(cur.eq), mi.entries, "Eq"@, None) {
            Err(e) => Err(e),
            Ok(s) => Ok(InputV { eq: Some(s), ..cur }),
        }
    } else if mi.name == "Hash"@ {
        match spec_input_section_apply(opt_or_empty(cur.hash), mi.entries, "Hash"@, None) {
            Err(e) => Err(e),
            Ok(s) => Ok(InputV { hash: Some(s), ..cur }),
        }
    } else if mi.name == "PartialEq"@ {
        match spec_input_section_apply(opt_or_empty(cur.partial_eq), mi.entries, "PartialEq"@,
            Some("feature_allow_slow_enum"@)) {
            Err(e) => Err(e),
            Ok(s) => Ok(InputV { partial_eq: Some(s), ..cur }),
        }
    } else if mi.name == "PartialOrd"@ {
        match spec_input_section_apply(opt_or_empty(cur.partial_ord), mi.entries, "PartialOrd"@,
            Some("feature_allow_slow_enum"@)) {
            Err(e) => Err(e),
            Ok(s) => Ok(InputV { partial_ord: Some(s), ..cur }),
        }
    } else if mi.name == "Ord"@ {
        match spec_input_section_apply(opt_or_empty(cur.ord), mi.entries, "Ord"@, Some(
            "feature_allow_slow_enum"@,
        )) {
            Err(e) => Err(e),
            Ok(s) => Ok(InputV { ord: Some(s), ..cur }),
        }
    } else {
        Err(ConfigErrorV::UnknownTrait { name: mi.name, span: mi.span })
    }
}

/// The annotation items of one `derivative` attribute applied in order.
pub open spec fn spec_input_fold_items(cur: InputV, items: Seq<RawNested>) -> Result<
    InputV,
    ConfigErrorV,
>
    decreases items.len(),
{
    if items.len() == 0 {
        Ok(cur)
    } else {
        match spec_read_items(items[0]) {
            Err(e) => Err(e),
            Ok(mi) => match spec_input_apply(cur, mi) {
                Err(e) => Err(e),
                Ok(c2) => spec_input_fold_items(c2, items.subrange(1, items.len() as int)),
            },
        }
    }
}

/// All attributes applied in order; attributes that are not a
/// parenthesized list named `derivative` are ignored.
pub open spec fn spec_input_fold_attrs(cur: InputV, attrs: Seq<RawMeta>) -> Result<
    InputV,
    ConfigErrorV,
>
    decreases attrs.len(),
{
    if attrs.len() == 0 {
        Ok(cur)
    } else {
        let r1 = match attrs[0] {
            RawMeta::List { name, items, .. } => if name@ == "derivative"@ {
                spec_input_fold_items(cur, items@)
            } else {
                Ok(cur)
            },
            _ => Ok(cur),
        };
        match r1 {
            Err(e) => Err(e),
            Ok(c2) => spec_input_fold_attrs(c2, attrs.subrange(1, attrs.len() as int)),
        }
    }
}

/// The parse of a whole type-granularity configuration.
pub open spec fn spec_input_from_ast(attrs: Seq<RawMeta>) -> Result<InputV, ConfigErrorV> {
    spec_input_fold_attrs(input_v_empty(), attrs)
}

fn apply_input(input: Input, mi: &MetaItem) -> (r: Result<Input, ConfigError>)
    ensures
        match r {
            Ok(c2) => spec_input_apply(input@, mi@) == Ok::<InputV, ConfigErrorV>(c2@),
            Err(e) => spec_input_apply(input@, mi@) == Err::<InputV, ConfigErrorV>(e@),
        },
{
    let mut input = input;
    let name = &mi.name;
    if str_eq(name.as_str(), "Clone") {
        let cur = match input.clone.take() {
            Some(s) => s,
            None => InputSection::empty(),
        };
        match apply_input_section(cur, &mi.entries, "Clone", Some("clone_from")) {
            Err(e) => Err(e),
            Ok(s) => {
                input.clone = Some(s);
                Ok(input)
            },
        }
    } else if str_eq(name.as_str(), "Copy") {
        let cur = match input.copy.take() {
            Some(s) => s,
            None => InputSection::empty(),
        };
        match apply_input_section(cur, &mi.entries, "Copy", None) {
            Err(e) => Err(e),
            Ok(s) => {
                input.copy = Some(s);
                Ok(input)
            },
        }
    } else if str_eq(name.as_str(), "Debug") {
        let cur = match input.debug.take() {
            Some(s) => s,
            None => InputSection::empty(),
        };
        match apply_input_section(cur, &mi.entries, "Debug", Some("transparent")) {
            Err(e) => Err(e),
            Ok(s) => {
                input.debug = Some(s);
                Ok(input)
            },
        }
    } else if str_eq(name.as_str(), "Default") {
        let cur = match input.default.take() {
            Some(s) => s,
            None => InputSection::empty(),
        };
        match apply_input_section(cur, &mi.entries, "Default", Some("new")) {
            Err(e) => Err(e),
            Ok(s) => {
                input.default = Some(s);
                Ok(input)
            },
        }
    } else if str_eq(name.as_str(), "Eq") {
        let cur = match input.eq.take() {
            Some(s) => s,
            None => InputSection::empty(),
        };
        match apply_input_section(cur, &mi.entries, "Eq", None) {
            Err(e) => Err(e),
            Ok(s) => {
                input.eq = Some(s);
                Ok(input)
            },
        }
    } else if str_eq(name.as_str(), "Hash") {
        let cur = match input.hash.take() {
            Some(s) => s,
            None => InputSection::empty(),
        };
        match apply_input_section(cur, &mi.entries, "Hash", None) {
            Err(e) => Err(e),
            Ok(s) => {
                input.hash = Some(s);
                Ok(input)
            },
        }
    } else if str_eq(name.as_str(), "PartialEq") {
        let cur = match input.partial_eq.take() {
            Some(s) => s,
            None => InputSection::empty(),
        };
        match apply_input_section(cur, &mi.entries, "PartialEq", Some("feature_allow_slow_enum")) {
            Err(e) => Err(e),
            Ok(s) => {
                input.partial_eq = Some(s);
                Ok(input)
            },
        }
    } else if str_eq(name.as_str(), "PartialOrd") {
        let cur = match input.partial_ord.take() {
            Some(s) => s,
            None => InputSection::empty(),
        };
        match apply_input_section(cur, &mi.entries, "PartialOrd", Some("feature_allow_slow_enum")) {
            Err(e) => Err(e),
            Ok(s) => {
                input.partial_ord = Some(s);
                Ok(input)
            },
        }
    } else if str_eq(name.as_str(), "Ord") {
        let cur = match input.ord.take() {
            Some(s) => s,
            None => InputSection::empty(),
        };
        match apply_input_section(cur, &mi.entries, "Ord", Some("feature_allow_slow_enum")) {
            Err(e) => Err(e),
            Ok(s) => {
                input.ord = Some(s);
                Ok(input)
            },
        }
    } else {
        Err(ConfigError::UnknownTrait { name: name.clone(), span: mi.span })
    }
}

impl Input {
    /// The configuration before any directive is applied: no trait
    /// requested.
    pub fn empty() -> (r: Input)
        ensures
            r@ == input_v_empty(),
    {
        Input {
            clone: None,
            copy: None,
            debug: None,
            default: None,
            eq: None,
            hash: None,
            partial_eq: None,
            partial_ord: None,
            ord: None,
        }
    }

    /// Parses the directive annotations of a type or of one enum variant.
    pub fn from_ast(attrs: &Vec<RawMeta>) -> (r: Result<Input, ConfigError>)
        ensures
            match r {
                Ok(c) => spec_input_from_ast(attrs@) == Ok::<InputV, ConfigErrorV>(c@),
                Err(e) => spec_input_from_ast(attrs@) == Err::<InputV, ConfigErrorV>(e@),
            },
    {
        let ghost target = spec_input_from_ast(attrs@);
        let mut input = Input::empty();
        proof {
            assert(attrs@.subrange(0, attrs@.len() as int) =~= attrs@);
        }
        let mut i: usize = 0;
        while i < attrs.len()
            invariant
                i <= attrs@.len(),
                target == spec_input_from_ast(attrs@),
                spec_input_fold_attrs(input@, attrs@.subrange(i as int, attrs@.len() as int))
                    == target,
            decreases attrs@.len() - i,
        {
            let ghost atail = attrs@.subrange(i as int, attrs@.len() as int);
            assert(atail[0] == attrs@[i as int]);
            proof {
                assert(atail.subrange(1, atail.len() as int) =~= attrs@.subrange(
                    i + 1,
                    attrs@.len() as int,
                ));
            }
            match derivative_attribute(&attrs[i]) {
                None => {},
                Some(items) => {
                    proof {
                        assert(items@.subrange(0, items@.len() as int) =~= items@);
                    }
                    let mut j: usize = 0;
                    while j < items.len()
                        invariant
                            j <= items@.len(),
                            target == spec_input_from_ast(attrs@),
                            match spec_input_fold_items(
                                input@,
                                items@.subrange(j as int, items@.len() as int),
                            ) {
                                Err(e) => target == Err::<InputV, ConfigErrorV>(e),
                                Ok(c2) => spec_input_fold_attrs(
                                    c2,
                                    attrs@.subrange(i + 1, attrs@.len() as int),
                                ) == target,
                            },
                        decreases items@.len() - j,
                    {
                        let ghost itail = items@.subrange(j as int, items@.len() as int);
                        assert(itail[0] == items@[j as int]);
                        proof {
                            assert(itail.subrange(1, itail.len() as int) =~= items@.subrange(
                                j + 1,
                                items@.len() as int,
                            ));
                        }
                        match read_items(&items[j]) {
                            Err(e) => {
                                return Err(e);
                            },
                            Ok(mi) => {
                                match apply_input(input, &mi) {
                                    Err(e) => {
                                        return Err(e);
                                    },
                                    Ok(c2) => {
                                        input = c2;
                                    },
                                }
                            },
                        }
                        j += 1;
                    }
                    proof {
                        assert(items@.subrange(items@.len() as int, items@.len() as int)
                            =~= Seq::<RawNested>::empty());
                    }
                },
            }
            i += 1;
        }
        proof {
            assert(attrs@.subrange(attrs@.len() as int, attrs@.len() as int)
                =~= Seq::<RawMeta>::empty());
        }
        Ok(input)
    }
}

/// One annotation applied to a field-granularity configuration.
pub open spec fn spec_field_apply(cur: FieldV, mi: MetaItemV) -> Result<FieldV, ConfigErrorV> {
    if mi.name == "Clone"@ {
        match spec_field_section_apply(cur.clone, mi.entries, "Clone"@, Some("clone_with"@),
            false, false, false) {
            Err(e) => Err(e),
            Ok(s) => Ok(FieldV { clone: s, ..cur }),
        }
    } else if mi.name == "Copy"@ {
        match spec_field_section_apply(cur.copy, mi.entries, "Copy"@, None, false, false, false) {
            Err(e) => Err(e),
            Ok(s) => Ok(FieldV { copy: s, ..cur }),
        }
    } else if mi.name == "Debug"@ {
        match spec_field_section_apply(cur.debug, mi.entries, "Debug"@, Some("format_with"@),
            true, false, true) {
            Err(e) => Err(e),
            Ok(s) => Ok(FieldV { debug: s, ..cur }),
        }
    } else if mi.name == "Default"@ {
        match spec_field_section_apply(cur.default, mi.entries, "Default"@, None, false, true,
            false) {
            Err(e) => Err(e),
            Ok(s) => Ok(FieldV { default: s, ..cur }),
        }
    } else if mi.name == "Eq"@ {
        match spec_field_section_apply(cur.eq, mi.entries, "Eq"@, None, false, false, false) {
            Err(e) => Err(e),
            Ok(s) => Ok(FieldV { eq: s, ..cur }),
        }
    } else if mi.name == "Hash"@ {
        match spec_field_section_apply(cur.hash, mi.entries, "Hash"@, Some("hash_with"@), true,
            false, false) {
            Err(e) => Err(e),
            Ok(s) => Ok(FieldV { hash: s, ..cur }),
        }
    } else if mi.name == "PartialEq"@ {
        match spec_field_section_apply(cur.partial_eq, mi.entries, "PartialEq"@, Some(
            "compare_with"@,
        ), true, false, false) {
            Err(e) => Err(e),
            Ok(s) => Ok(FieldV { partial_eq: s, ..cur }),
        }
    } else if mi.name == "PartialOrd"@ {
        match spec_field_section_apply(cur.partial_ord, mi.entries, "PartialOrd"@, Some(
            "compare_with"@,
        ), true, false, false) {
            Err(e) => Err(e),
            Ok(s) => Ok(FieldV { partial_ord: s, ..cur }),
        }
    } else if mi.name == "Ord"@ {
        match spec_field_section_apply(cur.ord, mi.entries, "Ord"@, Some("compare_with"@), true,
            false, false) {
            Err(e) => Err(e),
            Ok(s) => Ok(FieldV { ord: s, ..cur }),
        }
    } else {
        Err(ConfigErrorV::UnknownTrait { name: mi.name, span: mi.span })
    }
}

/// The annotation items of one `derivative` attribute applied in order to
/// a field configuration.
pub open spec fn spec_field_fold_items(cur: FieldV, items: Seq<RawNested>) -> Result<
    FieldV,
    ConfigErrorV,
>
    decreases items.len(),
{
    if items.len() == 0 {
        Ok(cur)
    } else {
        match spec_read_items(items[0]) {
            Err(e) => Err(e),
            Ok(mi) => match spec_field_apply(cur, mi) {
                Err(e) => Err(e),
                Ok(c2) => spec_field_fold_items(c2, items.subrange(1, items.len() as int)),
            },
        }
    }
}

/// All attributes of one field applied in order.
pub open spec fn spec_field_fold_attrs(cur: FieldV, attrs: Seq<RawMeta>) -> Result<
    FieldV,
    ConfigErrorV,
>
    decreases attrs.len(),
{
    if attrs.len() == 0 {
        Ok(cur)
    } else {
        let r1 = match attrs[0] {
            RawMeta::List { name, items, .. } => if name@ == "derivative"@ {
                spec_field_fold_items(cur, items@)
            } else {
                Ok(cur)
            },
            _ => Ok(cur),
        };
        match r1 {
            Err(e) => Err(e),
            Ok(c2) => spec_field_fold_attrs(c2, attrs.subrange(1, attrs.len() as int)),
        }
    }
}

/// The parse of a whole field-granularity configuration.
pub open spec fn spec_field_from_ast(attrs: Seq<RawMeta>) -> Result<FieldV, ConfigErrorV> {
    spec_field_fold_attrs(field_v_empty(), attrs)
}

fn apply_field(field: Field, mi: &MetaItem) -> (r: Result<Field, ConfigError>)
    ensures
        match r {
            Ok(c2) => spec_field_apply(field@, mi@) == Ok::<FieldV, ConfigErrorV>(c2@),
            Err(e) => spec_field_apply(field@, mi@) == Err::<FieldV, ConfigErrorV>(e@),
        },
{
    let mut field = field;
    let name = &mi.name;
    if str_eq(name.as_str(), "Clone") {
        match apply_field_section(field.clone, &mi.entries, "Clone", Some("clone_with"), false,
            false, false) {
            Err(e) => Err(e),
            Ok(s) => {
                field.clone = s;
                Ok(field)
            },
        }
    } else if str_eq(name.as_str(), "Copy") {
        match apply_field_section(field.copy, &mi.entries, "Copy", None, false, false, false) {
            Err(e) => Err(e),
            Ok(s) => {
                field.copy = s;
                Ok(field)
            },
        }
    } else if str_eq(name.as_str(), "Debug") {
        match apply_field_section(field.debug, &mi.entries, "Debug", Some("format_with"), true,
            false, true) {
            Err(e) => Err(e),
            Ok(s) => {
                field.debug = s;
                Ok(field)
            },
        }
    } else if str_eq(name.as_str(), "Default") {
        match apply_field_section(field.default, &mi.entries, "Default", None, false, true, false) {
            Err(e) => Err(e),
            Ok(s) => {
                field.default = s;
                Ok(field)
            },
        }
    } else if str_eq(name.as_str(), "Eq") {
        match apply_field_section(field.eq, &mi.entries, "Eq", None, false, false, false) {
            Err(e) => Err(e),
            Ok(s) => {
                field.eq = s;
                Ok(field)
            },
        }
    } else if str_eq(name.as_str(), "Hash") {
        match apply_field_section(field.hash, &mi.entries, "Hash", Some("hash_with"), true, false,
            false) {
            Err(e) => Err(e),
            Ok(s) => {
                field.hash = s;
                Ok(field)
            },
        }
    } else if str_eq(name.as_str(), "PartialEq") {
        match apply_field_section(field.partial_eq, &mi.entries, "PartialEq", Some("compare_with"),
            true, false, false) {
            Err(e) => Err(e),
            Ok(s) => {
                field.partial_eq = s;
                Ok(field)
            },
        }
    } else if str_eq(name.as_str(), "PartialOrd") {
        match apply_field_section(field.partial_ord, &mi.entries, "PartialOrd", Some(
            "compare_with",
        ), true, false, false) {
            Err(e) => Err(e),
            Ok(s) => {
                field.partial_ord = s;
                Ok(field)
            },
        }
    } else if str_eq(name.as_str(), "Ord") {
        match apply_field_section(field.ord, &mi.entries, "Ord", Some("compare_with"), true,
            false, false) {
            Err(e) => Err(e),
            Ok(s) => {
                field.ord = s;
                Ok(field)
            },
        }
    } else {
        Err(ConfigError::UnknownTrait { name: name.clone(), span: mi.span })
    }
}

impl Field {
    /// The configuration of a field before any directive is applied.
    pub fn empty() -> (r: Field)
        ensures
            r@ == field_v_empty(),
    {
        Field {
            clone: FieldSection::empty(),
            copy: FieldSection::empty(),
            debug: FieldSection::empty(),
            default: FieldSection::empty(),
            eq: FieldSection::empty(),
            hash: FieldSection::empty(),
            partial_eq: FieldSection::empty(),
            partial_ord: FieldSection::empty(),
            ord: FieldSection::empty(),
        }
    }

    /// Parses the directive annotations of one field.
    pub fn from_ast(attrs: &Vec<RawMeta>) -> (r: Result<Field, ConfigError>)
        ensures
            match r {
                Ok(c) => spec_field_from_ast(attrs@) == Ok::<FieldV, ConfigErrorV>(c@),
                Err(e) => spec_field_from_ast(attrs@) == Err::<FieldV, ConfigErrorV>(e@),
            },
    {
        let ghost target = spec_field_from_ast(attrs@);
        let mut field = Field::empty();
        proof {
            assert(attrs@.subrange(0, attrs@.len() as int) =~= attrs@);
        }
        let mut i: usize = 0;
        while i < attrs.len()
            invariant
                i <= attrs@.len(),
                target == spec_field_from_ast(attrs@),
                spec_field_fold_attrs(field@, attrs@.subrange(i as int, attrs@.len() as int))
                    == target,
            decreases attrs@.len() - i,
        {
            let ghost atail = attrs@.subrange(i as int, attrs@.len() as int);
            assert(atail[0] == attrs@[i as int]);
            proof {
                assert(atail.subrange(1, atail.len() as int) =~= attrs@.subrange(
                    i + 1,
                    attrs@.len() as int,
                ));
            }
            match derivative_attribute(&attrs[i]) {
                None => {},
                Some(items) => {
                    proof {
                        assert(items@.subrange(0, items@.len() as int) =~= items@);
                    }
                    let mut j: usize = 0;
                    while j < items.len()
                        invariant
                            j <= items@.len(),
                            target == spec_field_from_ast(attrs@),
                            match spec_field_fold_items(
                                field@,
                                items@.subrange(j as int, items@.len() as int),
                            ) {
                                Err(e) => target == Err::<FieldV, ConfigErrorV>(e),
                                Ok(c2) => spec_field_fold_attrs(
                                    c2,
                                    attrs@.subrange(i + 1, attrs@.len() as int),
                                ) == target,
                            },
                        decreases items@.len() - j,
                    {
                        let ghost itail = items@.subrange(j as int, items@.len() as int);
                        assert(itail[0] == items@[j as int]);
                        proof {
                            assert(itail.subrange(1, itail.len() as int) =~= items@.subrange(
                                j + 1,
                                items@.len() as int,
                            ));
                        }
                        match read_items(&items[j]) {
                            Err(e) => {
                                return Err(e);
                            },
                            Ok(mi) => {
                                match apply_field(field, &mi) {
                                    Err(e) => {
                                        return Err(e);
                                    },
                                    Ok(c2) => {
                                        field = c2;
                                    },
                                }
                            },
                        }
                        j += 1;
                    }
                    proof {
                        assert(items@.subrange(items@.len() as int, items@.len() as int)
                            =~= Seq::<RawNested>::empty());
                    }
                },
            }
            i += 1;
        }
        proof {
            assert(attrs@.subrange(attrs@.len() as int, attrs@.len() as int)
                =~= Seq::<RawMeta>::empty());
        }
        Ok(field)
    }
}


// ===========================================================================
// Getters.
// ===========================================================================

/// The explicit constraint list of an optional section.
pub open spec fn sec_bounds(s: Option<InputSectionV>) -> Option<Seq<PredV>> {
    match s {
        Some(x) => x.bounds,
        None => None,
    }
}

/// The boolean flag of an optional section; absent means `false`.
pub open spec fn sec_flag(s: Option<InputSectionV>) -> bool {
    match s {
        Some(x) => x.flag,
        None => false,
    }
}

impl Input {
    /// The explicit `bound` list given at type level for this trait.
    pub fn clone_bound(&self) -> (r: Option<&Vec<Predicate>>)
        ensures
            match r {
                Some(v) => sec_bounds(self@.clone) == Some(preds_view(v@)),
                None => sec_bounds(self@.clone) is None,
            },
    {
        match &self.clone {
            Some(s) => match &s.bounds {
                Some(b) => Some(b),
                None => None,
            },
            None => None,
        }
    }

    /// The explicit `bound` list given at type level for this trait.
    pub fn copy_bound(&self) -> (r: Option<&Vec<Predicate>>)
        ensures
            match r {
                Some(v) => sec_bounds(self@.copy) == Some(preds_view(v@)),
                None => sec_bounds(self@.copy) is None,
            },
    {
        match &self.copy {
            Some(s) => match &s.bounds {
                Some(b) => Some(b),
                None => None,
            },
            None => None,
        }
    }

    /// The explicit `bound` list given at type level for this trait.
    pub fn debug_bound(&self) -> (r: Option<&Vec<Predicate>>)
        ensures
            match r {
                Some(v) => sec_bounds(self@.debug) == Some(preds_view(v@)),
                None => sec_bounds(self@.debug) is None,
            },
    {
        match &self.debug {
            Some(s) => match &s.bounds {
                Some(b) => Some(b),
                None => None,
            },
            None => None,
        }
    }

    /// The explicit `bound` list given at type level for this trait.
    pub fn default_bound(&self) -> (r: Option<&Vec<Predicate>>)
        ensures
            match r {
                Some(v) => sec_bounds(self@.default) == Some(preds_view(v@)),
                None => sec_bounds(self@.default) is None,
            },
    {
        match &self.default {
            Some(s) => match &s.bounds {
                Some(b) => Some(b),
                None => None,
            },
            None => None,
        }
    }

    /// The explicit `bound` list given at type level for this trait.
    pub fn eq_bound(&self) -> (r: Option<&Vec<Predicate>>)
        ensures
            match r {
                Some(v) => sec_bounds(self@.eq) == Some(preds_view(v@)),
                None => sec_bounds(self@.eq) is None,
            },
    {
        match &self.eq {
            Some(s) => match &s.bounds {
                Some(b) => Some(b),
                None => None,
            },
            None => None,
        }
    }

    /// The explicit `bound` list given at type level for this trait.
    pub fn hash_bound(&self) -> (r: Option<&Vec<Predicate>>)
        ensures
            match r {
                Some(v) => sec_bounds(self@.hash) == Some(preds_view(v@)),
                None => sec_bounds(self@.hash) is None,
            },
    {
        match &self.hash {
            Some(s) => match &s.bounds {
                Some(b) => Some(b),
                None => None,
            },
            None => None,
        }
    }

    /// The explicit `bound` list given at type level for this trait.
    pub fn partial_eq_bound(&self) -> (r: Option<&Vec<Predicate>>)
        ensures
            match r {
                Some(v) => sec_bounds(self@.partial_eq) == Some(preds_view(v@)),
                None => sec_bounds(self@.partial_eq) is None,
            },
    {
        match &self.partial_eq {
            Some(s) => match &s.bounds {
                Some(b) => Some(b),
                None => None,
            },
            None => None,
        }
    }

    /// The explicit `bound` list given at type level for this trait.
    pub fn partial_ord_bound(&self) -> (r: Option<&Vec<Predicate>>)
        ensures
            match r {
                Some(v) => sec_bounds(self@.partial_ord) == Some(preds_view(v@)),
                None => sec_bounds(self@.partial_ord) is None,
            },
    {
        match &self.partial_ord {
            Some(s) => match &s.bounds {
                Some(b) => Some(b),
                None => None,
            },
            None => None,
        }
    }

    /// The explicit `bound` list given at type level for this trait.
    pub fn ord_bound(&self) -> (r: Option<&Vec<Predicate>>)
        ensures
            match r {
                Some(v) => sec_bounds(self@.ord) == Some(preds_view(v@)),
                None => sec_bounds(self@.ord) is None,
            },
    {
        match &self.ord {
            Some(s) => match &s.bounds {
                Some(b) => Some(b),
                None => None,
            },
            None => None,
        }
    }

    /// Whether the generated `Clone` impl should carry an explicit `clone_from`.
    pub fn clone_from(&self) -> (r: bool)
        ensures
            r == sec_flag(self@.clone),
    {
        match &self.clone {
            Some(s) => s.flag,
            None => false,
        }
    }

    /// Whether the type formats transparently through its single field.
    pub fn debug_transparent(&self) -> (r: bool)
        ensures
            r == sec_flag(self@.debug),
    {
        match &self.debug {
            Some(s) => s.flag,
            None => false,
        }
    }

    /// Whether a `new` constructor is requested besides `default`.
    pub fn default_new(&self) -> (r: bool)
        ensures
            r == sec_flag(self@.default),
    {
        match &self.default {
            Some(s) => s.flag,
            None => false,
        }
    }

    /// Whether enum support was opted into for `PartialEq`.
    pub fn partial_eq_on_enum(&self) -> (r: bool)
        ensures
            r == sec_flag(self@.partial_eq),
    {
        match &self.partial_eq {
            Some(s) => s.flag,
            None => false,
        }
    }

    /// Whether enum support was opted into for `PartialOrd`.
    pub fn partial_ord_on_enum(&self) -> (r: bool)
        ensures
            r == sec_flag(self@.partial_ord),
    {
        match &self.partial_ord {
            Some(s) => s.flag,
            None => false,
        }
    }

    /// Whether enum support was opted into for `Ord`.
    pub fn ord_on_enum(&self) -> (r: bool)
        ensures
            r == sec_flag(self@.ord),
    {
        match &self.ord {
            Some(s) => s.flag,
            None => false,
        }
    }

}

impl Field {
    /// The explicit `bound` list given on this field for this trait.
    pub fn clone_bound(&self) -> (r: Option<&Vec<Predicate>>)
        ensures
            match r {
                Some(v) => self@.clone.bounds == Some(preds_view(v@)),
                None => self@.clone.bounds is None,
            },
    {
        match &self.clone.bounds {
            Some(b) => Some(b),
            None => None,
        }
    }

    /// The explicit `bound` list given on this field for this trait.
    pub fn copy_bound(&self) -> (r: Option<&Vec<Predicate>>)
        ensures
            match r {
                Some(v) => self@.copy.bounds == Some(preds_view(v@)),
                None => self@.copy.bounds is None,
            },
    {
        match &self.copy.bounds {
            Some(b) => Some(b),
            None => None,
        }
    }

    /// The explicit `bound` list given on this field for this trait.
    pub fn debug_bound(&self) -> (r: Option<&Vec<Predicate>>)
        ensures
            match r {
                Some(v) => self@.debug.bounds == Some(preds_view(v@)),
                None => self@.debug.bounds is None,
            },
    {
        match &self.debug.bounds {
            Some(b) => Some(b),
            None => None,
        }
    }

    /// The explicit `bound` list given on this field for this trait.
    pub fn default_bound(&self) -> (r: Option<&Vec<Predicate>>)
        ensures
            match r {
                Some(v) => self@.default.bounds == Some(preds_view(v@)),
                None => self@.default.bounds is None,
            },
    {
        match &self.default.bounds {
            Some(b) => Some(b),
            None => None,
        }
    }

    /// The explicit `bound` list given on this field for this trait.
    pub fn eq_bound(&self) -> (r: Option<&Vec<Predicate>>)
        ensures
            match r {
                Some(v) => self@.eq.bounds == Some(preds_view(v@)),
                None => self@.eq.bounds is None,
            },
    {
        match &self.eq.bounds {
            Some(b) => Some(b),
            None => None,
        }
    }

    /// The explicit `bound` list given on this field for this trait.
    pub fn hash_bound(&self) -> (r: Option<&Vec<Predicate>>)
        ensures
            match r {
                Some(v) => self@.hash.bounds == Some(preds_view(v@)),
                None => self@.hash.bounds is None,
            },
    {
        match &self.hash.bounds {
            Some(b) => Some(b),
            None => None,
        }
    }

    /// The explicit `bound` list given on this field for this trait.
    pub fn partial_eq_bound(&self) -> (r: Option<&Vec<Predicate>>)
        ensures
            match r {
                Some(v) => self@.partial_eq.bounds == Some(preds_view(v@)),
                None => self@.partial_eq.bounds is None,
            },
    {
        match &self.partial_eq.bounds {
            Some(b) => Some(b),
            None => None,
        }
    }

    /// The explicit `bound` list given on this field for this trait.
    pub fn partial_ord_bound(&self) -> (r: Option<&Vec<Predicate>>)
        ensures
            match r {
                Some(v) => self@.partial_ord.bounds == Some(preds_view(v@)),
                None => self@.partial_ord.bounds is None,
            },
    {
        match &self.partial_ord.bounds {
            Some(b) => Some(b),
            None => None,
        }
    }

    /// The explicit `bound` list given on this field for this trait.
    pub fn ord_bound(&self) -> (r: Option<&Vec<Predicate>>)
        ensures
            match r {
                Some(v) => self@.ord.bounds == Some(preds_view(v@)),
                None => self@.ord.bounds is None,
            },
    {
        match &self.ord.bounds {
            Some(b) => Some(b),
            None => None,
        }
    }

    /// The path of the custom cloning function, if one was given.
    pub fn clone_with(&self) -> (r: Option<&String>)
        ensures
            match r {
                Some(s) => self@.clone.with == Some(s@),
                None => self@.clone.with is None,
            },
    {
        match &self.clone.with {
            Some(s) => Some(s),
            None => None,
        }
    }

    /// The path of the custom formatting function, if one was given.
    pub fn debug_format_with(&self) -> (r: Option<&String>)
        ensures
            match r {
                Some(s) => self@.debug.with == Some(s@),
                None => self@.debug.with is None,
            },
    {
        match &self.debug.with {
            Some(s) => Some(s),
            None => None,
        }
    }

    /// The path of the custom hashing function, if one was given.
    pub fn hash_with(&self) -> (r: Option<&String>)
        ensures
            match r {
                Some(s) => self@.hash.with == Some(s@),
                None => self@.hash.with is None,
            },
    {
        match &self.hash.with {
            Some(s) => Some(s),
            None => None,
        }
    }

    /// The path of the custom comparison function, if one was given.
    pub fn partial_eq_compare_with(&self) -> (r: Option<&String>)
        ensures
            match r {
                Some(s) => self@.partial_eq.with == Some(s@),
                None => self@.partial_eq.with is None,
            },
    {
        match &self.partial_eq.with {
            Some(s) => Some(s),
            None => None,
        }
    }

    /// The path of the custom comparison function, if one was given.
    pub fn partial_ord_compare_with(&self) -> (r: Option<&String>)
        ensures
            match r {
                Some(s) => self@.partial_ord.with == Some(s@),
                None => self@.partial_ord.with is None,
            },
    {
        match &self.partial_ord.with {
            Some(s) => Some(s),
            None => None,
        }
    }

    /// The path of the custom comparison function, if one was given.
    pub fn ord_compare_with(&self) -> (r: Option<&String>)
        ensures
            match r {
                Some(s) => self@.ord.with == Some(s@),
                None => self@.ord.with is None,
            },
    {
        match &self.ord.with {
            Some(s) => Some(s),
            None => None,
        }
    }

    /// Whether this field is ignored for this trait.
    pub fn ignore_debug(&self) -> (r: bool)
        ensures
            r == self@.debug.ignore,
    {
        self.debug.ignore
    }

    /// Whether this field is ignored for this trait.
    pub fn ignore_hash(&self) -> (r: bool)
        ensures
            r == self@.hash.ignore,
    {
        self.hash.ignore
    }

    /// Whether this field is ignored for this trait.
    pub fn ignore_partial_eq(&self) -> (r: bool)
        ensures
            r == self@.partial_eq.ignore,
    {
        self.partial_eq.ignore
    }

    /// Whether this field is ignored for this trait.
    pub fn ignore_partial_ord(&self) -> (r: bool)
        ensures
            r == self@.partial_ord.ignore,
    {
        self.partial_ord.ignore
    }

    /// Whether this field is ignored for this trait.
    pub fn ignore_ord(&self) -> (r: bool)
        ensures
            r == self@.ord.ignore,
    {
        self.ord.ignore
    }

    /// The explicit default-value expression, if one was given.
    pub fn default_value(&self) -> (r: Option<&String>)
        ensures
            match r {
                Some(s) => self@.default.value == Some(s@),
                None => self@.default.value is None,
            },
    {
        match &self.default.value {
            Some(s) => Some(s),
            None => None,
        }
    }

    /// The display range of this field, if one was given.
    pub fn debug_range(&self) -> (r: Option<(u64, u64)>)
        ensures
            match r {
                Some((a, b)) => self@.debug.range == Some((a as int, b as int)),
                None => self@.debug.range is None,
            },
    {
        self.debug.range
    }
}


/// The field-granularity section of one trait. The ignore flag of `Eq`
/// follows `PartialEq`, as equality is one relation.
pub open spec fn spec_field_section_of(f: FieldV, tr: TraitKind) -> FieldSectionV {
    match tr {
        TraitKind::Clone => f.clone,
        TraitKind::Copy => f.copy,
        TraitKind::Debug => f.debug,
        TraitKind::Default => f.default,
        TraitKind::Eq => f.eq,
        TraitKind::Hash => f.hash,
        TraitKind::PartialEq => f.partial_eq,
        TraitKind::PartialOrd => f.partial_ord,
        TraitKind::Ord => f.ord,
    }
}

/// The explicit per-field constraint override for one trait. Default
/// never takes bounds from inference, so its override is always the empty
/// list.
pub open spec fn spec_field_override(f: FieldV, tr: TraitKind) -> Option<Seq<PredV>> {
    if tr is Default {
        Some(Seq::empty())
    } else {
        spec_field_section_of(f, tr).bounds
    }
}

/// The explicit type-level constraint override for one trait.
pub open spec fn spec_input_override(i: InputV, tr: TraitKind) -> Option<Seq<PredV>> {
    if tr is Default {
        Some(Seq::empty())
    } else {
        match tr {
            TraitKind::Clone => sec_bounds(i.clone),
            TraitKind::Copy => sec_bounds(i.copy),
            TraitKind::Debug => sec_bounds(i.debug),
            TraitKind::Default => Some(Seq::empty()),
            TraitKind::Eq => sec_bounds(i.eq),
            TraitKind::Hash => sec_bounds(i.hash),
            TraitKind::PartialEq => sec_bounds(i.partial_eq),
            TraitKind::PartialOrd => sec_bounds(i.partial_ord),
            TraitKind::Ord => sec_bounds(i.ord),
        }
    }
}

/// Whether a field takes part in structural bound inference for one
/// trait: it is not ignored for that trait and carries no explicit
/// per-field bound. Ignoring for `PartialEq` also covers `Eq`.
pub open spec fn spec_needs(f: FieldV, tr: TraitKind) -> bool {
    match tr {
        TraitKind::Clone => f.clone.bounds is None,
        TraitKind::Copy => f.copy.bounds is None,
        TraitKind::Debug => !f.debug.ignore && f.debug.bounds is None,
        TraitKind::Default => true,
        TraitKind::Eq => !f.partial_eq.ignore && f.eq.bounds is None,
        TraitKind::Hash => !f.hash.ignore && f.hash.bounds is None,
        TraitKind::PartialEq => !f.partial_eq.ignore && f.partial_eq.bounds is None,
        TraitKind::PartialOrd => !f.partial_ord.ignore && f.partial_ord.bounds is None,
        TraitKind::Ord => !f.ord.ignore && f.ord.bounds is None,
    }
}

/// Whether a field takes part in structural bound inference for `tr`.
pub fn needs_bound(f: &Field, tr: TraitKind) -> (r: bool)
    ensures
        r == spec_needs(f@, tr),
{
    match tr {
        TraitKind::Clone => f.clone.bounds.is_none(),
        TraitKind::Copy => f.copy.bounds.is_none(),
        TraitKind::Debug => !f.debug.ignore && f.debug.bounds.is_none(),
        TraitKind::Default => true,
        TraitKind::Eq => !f.partial_eq.ignore && f.eq.bounds.is_none(),
        TraitKind::Hash => !f.hash.ignore && f.hash.bounds.is_none(),
        TraitKind::PartialEq => !f.partial_eq.ignore && f.partial_eq.bounds.is_none(),
        TraitKind::PartialOrd => !f.partial_ord.ignore && f.partial_ord.bounds.is_none(),
        TraitKind::Ord => !f.ord.ignore && f.ord.bounds.is_none(),
    }
}

/// The explicit per-field constraint override for `tr`, if any. For
/// Default the override is the empty list, which this accessor reports as
/// an empty slice borrowed from the field's own (never set) section.
pub fn field_override_bound(f: &Field, tr: TraitKind) -> (r: Option<&Vec<Predicate>>)
    ensures
        match r {
            Some(v) => spec_field_override(f@, tr) == Some(preds_view(v@)) && !(tr is Default),
            None => tr is Default || spec_field_override(f@, tr) is None,
        },
{
    if matches!(tr, TraitKind::Default) {
        return None;
    }
    let sec = match tr {
        TraitKind::Clone => &f.clone,
        TraitKind::Copy => &f.copy,
        TraitKind::Debug => &f.debug,
        TraitKind::Default => &f.default,
        TraitKind::Eq => &f.eq,
        TraitKind::Hash => &f.hash,
        TraitKind::PartialEq => &f.partial_eq,
        TraitKind::PartialOrd => &f.partial_ord,
        TraitKind::Ord => &f.ord,
    };
    match &sec.bounds {
        Some(b) => Some(b),
        None => None,
    }
}

/// The explicit type-level constraint override for `tr`, if any; `None`
/// for Default, whose callers always use the empty list.
pub fn input_override_bound(i: &Input, tr: TraitKind) -> (r: Option<&Vec<Predicate>>)
    ensures
        match r {
            Some(v) => spec_input_override(i@, tr) == Some(preds_view(v@)) && !(tr is Default),
            None => tr is Default || spec_input_override(i@, tr) is None,
        },
{
    if matches!(tr, TraitKind::Default) {
        return None;
    }
    let sec = match tr {
        TraitKind::Clone => &i.clone,
        TraitKind::Copy => &i.copy,
        TraitKind::Debug => &i.debug,
        TraitKind::Default => &i.default,
        TraitKind::Eq => &i.eq,
        TraitKind::Hash => &i.hash,
        TraitKind::PartialEq => &i.partial_eq,
        TraitKind::PartialOrd => &i.partial_ord,
        TraitKind::Ord => &i.ord,
    };
    match sec {
        Some(s) => match &s.bounds {
            Some(b) => Some(b),
            None => None,
        },
        None => None,
    }
}

} // verus!
