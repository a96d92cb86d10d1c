//! From what the host names to the expression that selects it.
use vstd::prelude::*;
use polars::prelude::{DataType, Expr};
use crate::expr::{ProtoRexpr, ProtoView, RPolarsExpr, col_expr, cols_expr, dtype_cols_expr};

verus! {

/// The expression that `polars::prelude::lit` builds for a string.
pub uninterp spec fn lit_str_expr(text: Seq<char>) -> Expr;

/// Calls `polars::prelude::lit` on a string slice, which builds the string
/// literal that holds a copy of it.
#[verifier::external_body]
fn call_lit_str(text: &str) -> (e: Expr)
    ensures
        e == lit_str_expr(text@),
{
    polars::prelude::lit(text)
}

/// What the host handed in where columns are asked for.
pub enum HostColumns {
    /// A character vector.
    Strings(Vec<String>),
    /// A data type, or a list that begins with one.
    DataTypes(Vec<DataType>),
    /// Any other value, read as a list of names.
    Names(Vec<String>),
}

/// Why no column expression can be built.
#[derive(Clone, Copy, Debug, PartialEq, Eq, Structural)]
pub enum ColumnError {
    /// Names and data types were given together.
    Mixed,
}

/// The names in `strings`, each by its characters.
pub open spec fn spec_names(strings: Seq<String>) -> Seq<Seq<char>> {
    strings.map_values(|s: String| s@)
}

impl HostColumns {
    /// How many names or data types the value holds.
    pub open spec fn spec_len(self) -> nat {
        match self {
            HostColumns::Strings(v) => v@.len(),
            HostColumns::DataTypes(v) => v@.len(),
            HostColumns::Names(v) => v@.len(),
        }
    }

    /// The names the value holds; none for data types.
    pub open spec fn spec_names(self) -> Seq<Seq<char>> {
        match self {
            HostColumns::Strings(v) => spec_names(v@),
            HostColumns::DataTypes(_) => Seq::empty(),
            HostColumns::Names(v) => spec_names(v@),
        }
    }

    /// The data types the value holds; none for names.
    pub open spec fn spec_dtypes(self) -> Seq<DataType> {
        match self {
            HostColumns::DataTypes(v) => v@,
            _ => Seq::empty(),
        }
    }
}

/// The column expression for `name` and what follows it.
///
/// One string with nothing after it is that column. Data types, followed by
/// data types or by nothing, are the columns of those types. Names,
/// followed by names or by nothing, are the columns of those names. Names
/// and data types do not mix.
pub open spec fn spec_robj_to_col(name: HostColumns, rest: HostColumns) -> Result<Expr, ColumnError> {
    if name is Strings && name.spec_len() == 1 && rest.spec_len() == 0 {
        Ok(col_expr(name.spec_names()[0]))
    } else if name is DataTypes {
        if rest is DataTypes || rest.spec_len() == 0 {
            Ok(dtype_cols_expr(name.spec_dtypes() + rest.spec_dtypes()))
        } else {
            Err(ColumnError::Mixed)
        }
    } else {
        if rest is DataTypes && rest.spec_len() > 0 {
            Err(ColumnError::Mixed)
        } else {
            Ok(cols_expr(name.spec_names() + rest.spec_names()))
        }
    }
}

/// Builds the column expression for `name` and the further arguments
/// `dotdotdot`.
pub fn robj_to_col(name: HostColumns, dotdotdot: HostColumns) -> (r: Result<
    RPolarsExpr,
    ColumnError,
>)
    ensures
        match spec_robj_to_col(name, dotdotdot) {
            Ok(e) => r is Ok && r->Ok_0.0 == e,
            Err(error) => r == Err::<RPolarsExpr, ColumnError>(error),
        },
{
    match name {
        HostColumns::DataTypes(mut dtypes) => {
            match dotdotdot {
                HostColumns::DataTypes(mut more) => {
                    dtypes.append(&mut more);
                    Ok(RPolarsExpr::dtype_cols(dtypes))
                },
                HostColumns::Strings(more) => {
                    if more.len() == 0 {
                        assert(dtypes@ + Seq::<DataType>::empty() =~= dtypes@);
                        Ok(RPolarsExpr::dtype_cols(dtypes))
                    } else {
                        Err(ColumnError::Mixed)
                    }
                },
                HostColumns::Names(more) => {
                    if more.len() == 0 {
                        assert(dtypes@ + Seq::<DataType>::empty() =~= dtypes@);
                        Ok(RPolarsExpr::dtype_cols(dtypes))
                    } else {
                        Err(ColumnError::Mixed)
                    }
                },
            }
        },
        HostColumns::Strings(names) => {
            let single = names.len() == 1;
            join_names(names, single, dotdotdot)
        },
        HostColumns::Names(names) => join_names(names, false, dotdotdot),
    }
}

/// The expression for names followed by `rest`; `single` says that the
/// names are one string of a character vector.
fn join_names(names: Vec<String>, single: bool, rest: HostColumns) -> (r: Result<
    RPolarsExpr,
    ColumnError,
>)
    requires
        single ==> names@.len() == 1,
    ensures
        match rest {
            HostColumns::DataTypes(more) => if more@.len() > 0 {
                r == Err::<RPolarsExpr, ColumnError>(ColumnError::Mixed)
            } else if single {
                r is Ok && r->Ok_0.0 == col_expr(names@[0]@)
            } else {
                r is Ok && r->Ok_0.0 == cols_expr(spec_names(names@))
            },
            _ => if single && rest.spec_len() == 0 {
                r is Ok && r->Ok_0.0 == col_expr(names@[0]@)
            } else {
                r is Ok && r->Ok_0.0 == cols_expr(spec_names(names@) + rest.spec_names())
            },
        },
{
    let mut names = names;
    match rest {
        HostColumns::DataTypes(more) => {
            if more.len() > 0 {
                Err(ColumnError::Mixed)
            } else if single {
                Ok(RPolarsExpr::col(names[0].as_str()))
            } else {
                Ok(RPolarsExpr::cols(names))
            }
        },
        HostColumns::Strings(mut more) => {
            if single && more.len() == 0 {
                Ok(RPolarsExpr::col(names[0].as_str()))
            } else {
                let ghost before = names@;
                let ghost added = more@;
                names.append(&mut more);
                assert(spec_names(names@) =~= spec_names(before) + spec_names(added));
                Ok(RPolarsExpr::cols(names))
            }
        },
        HostColumns::Names(mut more) => {
            if single && more.len() == 0 {
                Ok(RPolarsExpr::col(names[0].as_str()))
            } else {
                let ghost before = names@;
                let ghost added = more@;
                names.append(&mut more);
                assert(spec_names(names@) =~= spec_names(before) + spec_names(added));
                Ok(RPolarsExpr::cols(names))
            }
        },
    }
}

/// The expression a proto-expression stands for where a string may be a
/// literal or a column.
pub open spec fn spec_wrap(proto: ProtoView, str_to_lit: bool) -> Expr {
    match proto {
        ProtoView::Expr(e) => e,
        ProtoView::Name(text) => if str_to_lit {
            lit_str_expr(text)
        } else {
            col_expr(text)
        },
    }
}

/// Wraps a value as an expression: an expression is itself; a string is a
/// string literal where `str_to_lit` holds, and else the column of that name.
pub fn internal_wrap_e(robj: &ProtoRexpr, str_to_lit: bool) -> (e: RPolarsExpr)
    ensures
        e.0 == spec_wrap(robj@, str_to_lit),
{
    match robj {
        ProtoRexpr::RPolarsExpr(r) => r.clone(),
        ProtoRexpr::String(s) => {
            if str_to_lit {
                RPolarsExpr(call_lit_str(s.as_str()))
            } else {
                RPolarsExpr::col(s.as_str())
            }
        },
    }
}

} // verus!
