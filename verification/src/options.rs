//! The small decisions the expression front end makes before it calls the
//! engine: which options, which of two operations, which default.
use vstd::prelude::*;

verus! {

/// How to sort.
#[derive(Clone, Copy, Debug, PartialEq, Eq, Structural)]
pub struct SortPlan {
    pub descending: bool,
    pub nulls_last: bool,
    pub multithreaded: bool,
    pub maintain_order: bool,
}

/// The options of a sort of a column: on several threads, and free to
/// reorder equal values.
pub fn sort_plan(descending: bool, nulls_last: bool) -> (p: SortPlan)
    ensures
        p == (SortPlan { descending, nulls_last, multithreaded: true, maintain_order: false }),
{
    SortPlan { descending, nulls_last, multithreaded: true, maintain_order: false }
}

/// The options of a sort inside each list: nulls first, the rest as for a
/// column.
pub fn list_sort_plan(descending: bool) -> (p: SortPlan)
    ensures
        p == (SortPlan {
            descending,
            nulls_last: false,
            multithreaded: true,
            maintain_order: false,
        }),
{
    sort_plan(descending, false)
}

/// Why an argument is refused.
#[derive(Clone, Copy, Debug, PartialEq, Eq, Structural)]
pub enum ArgError {
    /// `n` is zero where a step is asked for.
    ZeroStep,
    /// A correlation method that is neither `pearson` nor `spearman`.
    UnknownMethod,
}

/// The step of `gather_every`: any `n` but zero.
pub fn gather_every_step(n: usize) -> (r: Result<usize, ArgError>)
    ensures
        n == 0 ==> r == Err::<usize, ArgError>(ArgError::ZeroStep),
        n != 0 ==> r == Ok::<usize, ArgError>(n),
{
    if n == 0 {
        Err(ArgError::ZeroStep)
    } else {
        Ok(n)
    }
}

/// The integer type a column of 64-bit values is reinterpreted as.
#[derive(Clone, Copy, Debug, PartialEq, Eq, Structural)]
pub enum Int64Type {
    Int64,
    UInt64,
}

/// The type that `reinterpret(signed)` gives.
pub fn reinterpret_type(signed: bool) -> (t: Int64Type)
    ensures
        signed ==> t == Int64Type::Int64,
        !signed ==> t == Int64Type::UInt64,
{
    if signed {
        Int64Type::Int64
    } else {
        Int64Type::UInt64
    }
}

/// How a column is repeated.
#[derive(Clone, Copy, Debug, PartialEq, Eq, Structural)]
pub enum RepPlan {
    /// One value: a column of `n` copies of it.
    Broadcast,
    /// Several values: the column is appended to itself.
    Append,
}

/// How `rep` repeats a column of `len` values.
pub fn rep_plan(len: usize) -> (p: RepPlan)
    ensures
        len == 1 ==> p == RepPlan::Broadcast,
        len != 1 ==> p == RepPlan::Append,
{
    if len == 1 {
        RepPlan::Broadcast
    } else {
        RepPlan::Append
    }
}

/// How a pattern is matched.
#[derive(Clone, Copy, Debug, PartialEq, Eq, Structural)]
pub enum ContainsPlan {
    /// The pattern is a plain substring.
    Literal,
    /// The pattern is a regular expression; `strict` says whether an
    /// invalid one is an error.
    Regex { strict: bool },
}

/// How `str_contains` matches: literally only where the caller said so.
pub fn contains_plan(literal: Option<bool>, strict: bool) -> (p: ContainsPlan)
    ensures
        literal == Some(true) ==> p == ContainsPlan::Literal,
        literal != Some(true) ==> p == (ContainsPlan::Regex { strict }),
{
    match literal {
        Some(true) => ContainsPlan::Literal,
        _ => ContainsPlan::Regex { strict },
    }
}

/// The offset of a truncation or a rounding: the one given, or none at all.
pub fn offset_or_zero(offset: Option<String>) -> (o: String)
    ensures
        match offset {
            Some(given) => o == given,
            None => o@ == "0ns"@,
        },
{
    match offset {
        Some(given) => given,
        None => "0ns".to_owned(),
    }
}

/// The length of a slice: the one given, or as far as the column goes.
pub fn slice_length(length: Option<i64>) -> (n: i64)
    ensures
        match length {
            Some(given) => n == given,
            None => n == i64::MAX,
        },
{
    match length {
        Some(given) => given,
        None => i64::MAX,
    }
}

/// A correlation method.
#[derive(Clone, Copy, Debug, PartialEq, Eq, Structural)]
pub enum CorrMethod {
    Pearson,
    Spearman,
}

/// The method that a name stands for.
pub open spec fn spec_corr_method(name: Seq<char>) -> Result<CorrMethod, ArgError> {
    if name == "pearson"@ {
        Ok(CorrMethod::Pearson)
    } else if name == "spearman"@ {
        Ok(CorrMethod::Spearman)
    } else {
        Err(ArgError::UnknownMethod)
    }
}

/// Reads the name of a correlation method: `pearson` or `spearman`, in
/// lower case, and nothing else.
pub fn corr_method(name: &str) -> (r: Result<CorrMethod, ArgError>)
    ensures
        r == spec_corr_method(name@),
{
    let given = name.to_owned();
    if given == "pearson".to_owned() {
        Ok(CorrMethod::Pearson)
    } else if given == "spearman".to_owned() {
        Ok(CorrMethod::Spearman)
    } else {
        Err(ArgError::UnknownMethod)
    }
}

/// The message that goes with a refused argument.
pub fn arg_error_message(error: ArgError) -> (m: String)
    ensures
        m@ == (match error {
            ArgError::ZeroStep => "n can't be zero"@,
            ArgError::UnknownMethod => "should be 'pearson' or 'spearman'"@,
        }),
{
    match error {
        ArgError::ZeroStep => "n can't be zero".to_owned(),
        ArgError::UnknownMethod => "should be 'pearson' or 'spearman'".to_owned(),
    }
}

} // verus!
