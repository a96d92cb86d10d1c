//! The methods of an expression in which something is decided before the
//! engine is called: which options, which default, which of two operations.
//!
//! What the engine builds is the engine's own. What these methods hand to
//! it is stated exactly.
use vstd::prelude::*;
use polars::prelude::{Expr, SortOptions};
use crate::expr::RPolarsExpr;
use crate::options::{
    ArgError, ContainsPlan, CorrMethod, SortPlan, contains_plan, corr_method, offset_or_zero,
    slice_length, sort_plan, spec_corr_method,
};

verus! {

/// The expression that `Expr::sort_with` builds.
pub uninterp spec fn sort_expr(e: Expr, plan: SortPlan) -> Expr;

/// The expression that `polars::prelude::lit` builds for a 64-bit integer.
pub uninterp spec fn lit_i64_expr(value: i64) -> Expr;

/// The expression that `Expr::slice` builds.
pub uninterp spec fn slice_expr(e: Expr, offset: Expr, length: Expr) -> Expr;

/// The expression that `ListNameSpace::slice` builds.
pub uninterp spec fn list_slice_expr(e: Expr, offset: Expr, length: Expr) -> Expr;

/// The expression that `StringNameSpace::contains_literal` builds.
pub uninterp spec fn contains_literal_expr(e: Expr, pat: Expr) -> Expr;

/// The expression that `StringNameSpace::contains` builds.
pub uninterp spec fn contains_expr(e: Expr, pat: Expr, strict: bool) -> Expr;

/// The expression that `DateLikeNameSpace::truncate` builds.
pub uninterp spec fn truncate_expr(e: Expr, every: Expr, offset: Seq<char>) -> Expr;

/// The expression that `DateLikeNameSpace::round` builds.
pub uninterp spec fn round_expr(e: Expr, every: Seq<char>, offset: Seq<char>) -> Expr;

/// The expression that `polars::prelude::pearson_corr` builds.
pub uninterp spec fn pearson_expr(a: Expr, b: Expr, ddof: u8) -> Expr;

/// The expression that `polars::prelude::spearman_rank_corr` builds.
pub uninterp spec fn spearman_expr(a: Expr, b: Expr, ddof: u8, propagate_nans: bool) -> Expr;

/// Calls `Expr::sort_with`, which wraps the expression in a sort with the
/// four options as they are given.
#[verifier::external_body]
fn call_sort_with(e: Expr, plan: SortPlan) -> (r: Expr)
    ensures
        r == sort_expr(e, plan),
{
    e.sort_with(
        SortOptions {
            descending: plan.descending,
            nulls_last: plan.nulls_last,
            multithreaded: plan.multithreaded,
            maintain_order: plan.maintain_order,
        },
    )
}

/// Calls `polars::prelude::lit` on a 64-bit integer, which builds the
/// literal that holds it.
#[verifier::external_body]
fn call_lit_i64(value: i64) -> (r: Expr)
    ensures
        r == lit_i64_expr(value),
{
    polars::prelude::lit(value)
}

/// Calls `Expr::slice`, which wraps the expression and the two bounds in a
/// slice.
#[verifier::external_body]
fn call_slice(e: Expr, offset: Expr, length: Expr) -> (r: Expr)
    ensures
        r == slice_expr(e, offset, length),
{
    e.slice(offset, length)
}

/// Calls `ListNameSpace::slice`, which builds the slice of every sublist
/// from the expression and the two bounds.
#[verifier::external_body]
fn call_list_slice(e: Expr, offset: Expr, length: Expr) -> (r: Expr)
    ensures
        r == list_slice_expr(e, offset, length),
{
    e.list().slice(offset, length)
}

/// Calls `StringNameSpace::contains_literal`, which builds the test for a
/// plain substring.
#[verifier::external_body]
fn call_contains_literal(e: Expr, pat: Expr) -> (r: Expr)
    ensures
        r == contains_literal_expr(e, pat),
{
    e.str().contains_literal(pat)
}

/// Calls `StringNameSpace::contains`, which builds the test for a regular
/// expression, strict or not as given.
#[verifier::external_body]
fn call_contains(e: Expr, pat: Expr, strict: bool) -> (r: Expr)
    ensures
        r == contains_expr(e, pat, strict),
{
    e.str().contains(pat, strict)
}

/// Calls `DateLikeNameSpace::truncate`, which builds the truncation into
/// buckets of `every`, shifted by `offset`.
#[verifier::external_body]
fn call_truncate(e: Expr, every: Expr, offset: String) -> (r: Expr)
    ensures
        r == truncate_expr(e, every, offset@),
{
    e.dt().truncate(every, offset)
}

/// Calls `DateLikeNameSpace::round`, which builds the rounding into buckets
/// of `every`, shifted by `offset`.
#[verifier::external_body]
fn call_round(e: Expr, every: String, offset: String) -> (r: Expr)
    ensures
        r == round_expr(e, every@, offset@),
{
    e.dt().round(every, offset)
}

/// Calls `polars::prelude::pearson_corr`, which builds the Pearson
/// correlation of two expressions.
#[verifier::external_body]
fn call_pearson(a: Expr, b: Expr, ddof: u8) -> (r: Expr)
    ensures
        r == pearson_expr(a, b, ddof),
{
    polars::prelude::pearson_corr(a, b, ddof)
}

/// Calls `polars::prelude::spearman_rank_corr`, which builds the Spearman
/// rank correlation of two expressions.
#[verifier::external_body]
fn call_spearman(a: Expr, b: Expr, ddof: u8, propagate_nans: bool) -> (r: Expr)
    ensures
        r == spearman_expr(a, b, ddof, propagate_nans),
{
    polars::prelude::spearman_rank_corr(a, b, ddof, propagate_nans)
}

impl RPolarsExpr {
    /// The expression sorted: on several threads, and free to reorder equal
    /// values.
    pub fn sort(&self, descending: bool, nulls_last: bool) -> (r: Self)
        ensures
            r.0 == sort_expr(
                self.0,
                SortPlan { descending, nulls_last, multithreaded: true, maintain_order: false },
            ),
    {
        RPolarsExpr(call_sort_with(self.clone().0, sort_plan(descending, nulls_last)))
    }

    /// The values from `offset` on, `length` of them; with no length, as
    /// far as the column goes.
    pub fn slice(&self, offset: &RPolarsExpr, length: Option<&RPolarsExpr>) -> (r: Self)
        ensures
            r.0 == slice_expr(
                self.0,
                offset.0,
                match length {
                    Some(l) => l.0,
                    None => lit_i64_expr(i64::MAX),
                },
            ),
    {
        let length = match length {
            Some(l) => l.clone().0,
            None => call_lit_i64(slice_length(None)),
        };
        RPolarsExpr(call_slice(self.clone().0, offset.clone().0, length))
    }

    /// Of every sublist the values from `offset` on, `length` of them; with
    /// no length, as far as the sublist goes.
    pub fn list_slice(&self, offset: &RPolarsExpr, length: Option<&RPolarsExpr>) -> (r: Self)
        ensures
            r.0 == list_slice_expr(
                self.0,
                offset.0,
                match length {
                    Some(l) => l.0,
                    None => lit_i64_expr(i64::MAX),
                },
            ),
    {
        let length = match length {
            Some(l) => l.clone().0,
            None => call_lit_i64(slice_length(None)),
        };
        RPolarsExpr(call_list_slice(self.clone().0, offset.clone().0, length))
    }

    /// Whether each string contains the pattern: as a plain substring where
    /// `literal` is `Some(true)`, and else as a regular expression.
    pub fn str_contains(&self, pat: &RPolarsExpr, literal: Option<bool>, strict: bool) -> (r: Self)
        ensures
            literal == Some(true) ==> r.0 == contains_literal_expr(self.0, pat.0),
            literal != Some(true) ==> r.0 == contains_expr(self.0, pat.0, strict),
    {
        match contains_plan(literal, strict) {
            ContainsPlan::Literal => RPolarsExpr(
                call_contains_literal(self.clone().0, pat.clone().0),
            ),
            ContainsPlan::Regex { strict } => RPolarsExpr(
                call_contains(self.clone().0, pat.clone().0, strict),
            ),
        }
    }

    /// Each date or time truncated to its bucket of `every`; with no
    /// offset, buckets are not shifted.
    pub fn dt_truncate(&self, every: &RPolarsExpr, offset: Option<String>) -> (r: Self)
        ensures
            r.0 == truncate_expr(
                self.0,
                every.0,
                match offset {
                    Some(given) => given@,
                    None => "0ns"@,
                },
            ),
    {
        RPolarsExpr(call_truncate(self.clone().0, every.clone().0, offset_or_zero(offset)))
    }

    /// Each date or time rounded to its bucket of `every`; with no offset,
    /// buckets are not shifted.
    pub fn dt_round(&self, every: String, offset: Option<String>) -> (r: Self)
        ensures
            r.0 == round_expr(
                self.0,
                every@,
                match offset {
                    Some(given) => given@,
                    None => "0ns"@,
                },
            ),
    {
        RPolarsExpr(call_round(self.clone().0, every, offset_or_zero(offset)))
    }

    /// The correlation of two expressions by the named method. Only the
    /// Spearman correlation looks at `propagate_nans`.
    pub fn corr(
        a: &RPolarsExpr,
        b: &RPolarsExpr,
        method: &str,
        ddof: u8,
        propagate_nans: bool,
    ) -> (r: Result<Self, ArgError>)
        ensures
            match spec_corr_method(method@) {
                Ok(CorrMethod::Pearson) => r is Ok && r->Ok_0.0 == pearson_expr(a.0, b.0, ddof),
                Ok(CorrMethod::Spearman) => r is Ok && r->Ok_0.0 == spearman_expr(
                    a.0,
                    b.0,
                    ddof,
                    propagate_nans,
                ),
                Err(e) => r == Err::<Self, ArgError>(e),
            },
    {
        match corr_method(method) {
            Ok(CorrMethod::Pearson) => Ok(RPolarsExpr(call_pearson(a.clone().0, b.clone().0, ddof))),
            Ok(CorrMethod::Spearman) => Ok(
                RPolarsExpr(call_spearman(a.clone().0, b.clone().0, ddof, propagate_nans)),
            ),
            Err(e) => Err(e),
        }
    }
}

} // verus!
