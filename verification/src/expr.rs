//! Expressions, and the proto-expressions that stand for them until the
//! context is known.
//!
//! An expression is the engine's own value and is carried as it is. A
//! proto-expression is either such an expression or a bare string, which
//! becomes a column of that name once it is used in a selection.
use vstd::prelude::*;
use polars::prelude::{DataType, Expr};

verus! {

/// The expression that `polars::prelude::col` builds for a column name.
pub uninterp spec fn col_expr(name: Seq<char>) -> Expr;

/// The expression that `polars::prelude::cols` builds for a list of column names.
pub uninterp spec fn cols_expr(names: Seq<Seq<char>>) -> Expr;

/// The expression that `polars::prelude::dtype_cols` builds for a list of data types.
pub uninterp spec fn dtype_cols_expr(dtypes: Seq<DataType>) -> Expr;

/// Calls `polars::prelude::col`, which builds the expression for one column
/// from its name alone (the wildcard for `"*"`).
#[verifier::external_body]
fn call_col(name: &str) -> (e: Expr)
    ensures
        e == col_expr(name@),
{
    polars::prelude::col(name)
}

/// Calls `polars::prelude::cols`, which builds the expression that selects
/// the named columns from the names alone, in their order.
#[verifier::external_body]
fn call_cols(names: Vec<String>) -> (e: Expr)
    ensures
        e == cols_expr(names@.map_values(|s: String| s@)),
{
    polars::prelude::cols(names)
}

/// Calls `polars::prelude::dtype_cols`, which builds the expression that
/// selects the columns of the given data types from a copy of that list.
#[verifier::external_body]
fn call_dtype_cols(dtypes: Vec<DataType>) -> (e: Expr)
    ensures
        e == dtype_cols_expr(dtypes@),
{
    polars::prelude::dtype_cols(dtypes)
}

/// Calls `Expr::clone`, the derived copy of an expression tree.
#[verifier::external_body]
fn clone_expr(e: &Expr) -> (c: Expr)
    ensures
        c == *e,
{
    e.clone()
}

/// An expression of the engine, as the host sees it.
pub struct RPolarsExpr(pub Expr);

impl Clone for RPolarsExpr {
    fn clone(&self) -> (c: Self)
        ensures
            c == *self,
    {
        RPolarsExpr(clone_expr(&self.0))
    }
}

impl From<Expr> for RPolarsExpr {
    fn from(expr: Expr) -> (e: Self) {
        RPolarsExpr(expr)
    }
}

impl vstd::std_specs::convert::FromSpecImpl<Expr> for RPolarsExpr {
    open spec fn obeys_from_spec() -> bool {
        true
    }

    open spec fn from_spec(expr: Expr) -> Self {
        RPolarsExpr(expr)
    }
}

impl From<RPolarsExpr> for Expr {
    fn from(x: RPolarsExpr) -> (e: Self) {
        x.0
    }
}

impl vstd::std_specs::convert::FromSpecImpl<RPolarsExpr> for Expr {
    open spec fn obeys_from_spec() -> bool {
        true
    }

    open spec fn from_spec(x: RPolarsExpr) -> Self {
        x.0
    }
}

impl RPolarsExpr {
    /// The column of that name.
    pub fn col(name: &str) -> (e: Self)
        ensures
            e.0 == col_expr(name@),
    {
        RPolarsExpr(call_col(name))
    }

    /// The columns of these names.
    pub fn cols(names: Vec<String>) -> (e: Self)
        ensures
            e.0 == cols_expr(names@.map_values(|s: String| s@)),
    {
        RPolarsExpr(call_cols(names))
    }

    /// The columns of these data types.
    pub fn dtype_cols(dtypes: Vec<DataType>) -> (e: Self)
        ensures
            e.0 == dtype_cols_expr(dtypes@),
    {
        RPolarsExpr(call_dtype_cols(dtypes))
    }
}

/// An expression, or a string that will become one.
pub enum ProtoRexpr {
    RPolarsExpr(RPolarsExpr),
    String(String),
}

/// What a proto-expression is, to its contracts.
pub enum ProtoView {
    Expr(Expr),
    Name(Seq<char>),
}

impl View for ProtoRexpr {
    type V = ProtoView;

    open spec fn view(&self) -> ProtoView {
        match *self {
            ProtoRexpr::RPolarsExpr(e) => ProtoView::Expr(e.0),
            ProtoRexpr::String(s) => ProtoView::Name(s@),
        }
    }
}

/// The expression a proto-expression stands for in a selection.
pub open spec fn spec_to_expr(proto: ProtoView) -> Expr {
    match proto {
        ProtoView::Expr(e) => e,
        ProtoView::Name(name) => col_expr(name),
    }
}

/// Whether a proto-expression can be resolved in `context`: an expression
/// in any, a string in a selection only.
pub open spec fn spec_resolvable(proto: ProtoView, context: Seq<char>) -> bool {
    proto is Name ==> context == "select"@
}

impl ProtoRexpr {
    /// A proto-expression that is the string `s`.
    pub fn new_str(s: &str) -> (p: Self)
        ensures
            p@ == ProtoView::Name(s@),
    {
        ProtoRexpr::String(s.to_owned())
    }

    /// A proto-expression that is the expression `r`.
    pub fn new_expr(r: &RPolarsExpr) -> (p: Self)
        ensures
            p@ == ProtoView::Expr(r.0),
    {
        ProtoRexpr::RPolarsExpr(r.clone())
    }

    /// Whether `to_rexpr` can resolve this proto-expression in `context`.
    pub fn resolvable(&self, context: &str) -> (b: bool)
        ensures
            b == spec_resolvable(self@, context@),
    {
        match self {
            ProtoRexpr::RPolarsExpr(_) => true,
            ProtoRexpr::String(_) => is_select(context),
        }
    }

    /// The expression this proto-expression stands for: itself, or the
    /// column named by the string. A string has a meaning in the context
    /// `"select"` only.
    pub fn to_rexpr(&self, context: &str) -> (e: RPolarsExpr)
        requires
            spec_resolvable(self@, context@),
        ensures
            e.0 == spec_to_expr(self@),
    {
        match self {
            ProtoRexpr::RPolarsExpr(r) => r.clone(),
            ProtoRexpr::String(s) => RPolarsExpr::col(s.as_str()),
        }
    }
}

/// Whether `context` is the selection context.
fn is_select(context: &str) -> (b: bool)
    ensures
        b == (context@ == "select"@),
{
    let given = context.to_owned();
    let wanted = "select".to_owned();
    given == wanted
}

/// A list of proto-expressions, in the order in which they were given.
pub struct RPolarsProtoExprArray(pub Vec<ProtoRexpr>);

impl View for RPolarsProtoExprArray {
    type V = Seq<ProtoView>;

    open spec fn view(&self) -> Seq<ProtoView> {
        self.0@.map_values(|p: ProtoRexpr| p@)
    }
}

impl Default for RPolarsProtoExprArray {
    fn default() -> (a: Self)
        ensures
            a@ == Seq::<ProtoView>::empty(),
    {
        Self::new()
    }
}

impl RPolarsProtoExprArray {
    /// An empty list.
    pub fn new() -> (a: Self)
        ensures
            a@ == Seq::<ProtoView>::empty(),
    {
        let a = RPolarsProtoExprArray(Vec::new());
        assert(a@ =~= Seq::<ProtoView>::empty());
        a
    }

    /// Appends the string `s`.
    pub fn push_back_str(&mut self, s: &str)
        ensures
            final(self)@ == old(self)@.push(ProtoView::Name(s@)),
    {
        self.0.push(ProtoRexpr::new_str(s));
        assert(self@ =~= old(self)@.push(ProtoView::Name(s@)));
    }

    /// Appends the expression `r`.
    pub fn push_back_rexpr(&mut self, r: &RPolarsExpr)
        ensures
            final(self)@ == old(self)@.push(ProtoView::Expr(r.0)),
    {
        self.0.push(ProtoRexpr::new_expr(r));
        assert(self@ =~= old(self)@.push(ProtoView::Expr(r.0)));
    }

    /// Whether `to_vec` can resolve every entry in `context`.
    pub fn resolvable(&self, context: &str) -> (b: bool)
        ensures
            b == forall|i: int| 0 <= i < self@.len() ==> spec_resolvable(#[trigger] self@[i], context@),
    {
        let mut i: usize = 0;
        while i < self.0.len()
            invariant
                i <= self.0@.len(),
                forall|k: int| 0 <= k < i ==> spec_resolvable(#[trigger] self@[k], context@),
            decreases self.0.len() - i,
        {
            if !self.0[i].resolvable(context) {
                assert(!spec_resolvable(self@[i as int], context@));
                return false;
            }
            i += 1;
        }
        true
    }

    /// The expressions the entries stand for, in order.
    pub fn to_vec(&self, context: &str) -> (v: Vec<Expr>)
        requires
            forall|i: int| 0 <= i < self@.len() ==> spec_resolvable(#[trigger] self@[i], context@),
        ensures
            v@ == self@.map_values(|p: ProtoView| spec_to_expr(p)),
    {
        pra_to_vec(self, context)
    }
}

/// The expressions the entries of `pra` stand for, in order.
pub fn pra_to_vec(pra: &RPolarsProtoExprArray, context: &str) -> (v: Vec<Expr>)
    requires
        forall|i: int| 0 <= i < pra@.len() ==> spec_resolvable(#[trigger] pra@[i], context@),
    ensures
        v@ == pra@.map_values(|p: ProtoView| spec_to_expr(p)),
{
    let mut v: Vec<Expr> = Vec::new();
    let mut i: usize = 0;
    while i < pra.0.len()
        invariant
            i <= pra.0@.len(),
            forall|k: int| 0 <= k < pra@.len() ==> spec_resolvable(#[trigger] pra@[k], context@),
            v@.len() == i,
            forall|k: int| 0 <= k < i ==> #[trigger] v@[k] == spec_to_expr(pra@[k]),
        decreases pra.0.len() - i,
    {
        assert(spec_resolvable(pra@[i as int], context@));
        let e = pra.0[i].to_rexpr(context);
        v.push(e.0);
        i += 1;
    }
    assert(v@ =~= pra@.map_values(|p: ProtoView| spec_to_expr(p)));
    v
}

} // verus!
