//! The engine's own types, as far as the bridge carries them.
//!
//! A columnar batch and an expression are opaque here: the bridge moves them
//! between threads and never looks inside.
use vstd::prelude::*;

verus! {

/// The engine's columnar batch, `polars::prelude::Series`.
#[verifier::external_type_specification]
#[verifier::external_body]
pub struct ExSeries(polars::prelude::Series);

/// The engine's expression, `polars::prelude::Expr`.
#[verifier::external_type_specification]
#[verifier::external_body]
pub struct ExExpr(polars::prelude::Expr);

/// The engine's data type, `polars::prelude::DataType`.
#[verifier::external_type_specification]
#[verifier::external_body]
pub struct ExDataType(polars::prelude::DataType);

} // verus!
