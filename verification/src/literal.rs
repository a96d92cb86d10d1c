//! How a host value becomes a literal.
//!
//! The host hands over a value of some type and length. Which literal the
//! engine is given depends on a few facts about that value, read once at the
//! edge: its type, its length, two class marks, and, for a vector of one
//! element, that element or the fact that it is missing.
use vstd::prelude::*;

verus! {

/// The class of a host value that is a pointer to a value of the engine.
#[derive(Clone, Copy, Debug, PartialEq, Eq, Structural)]
pub enum PointerClass {
    /// A series.
    Series,
    /// An expression.
    Expr,
    /// A `when(..).then(..)` chain that lacks its `otherwise`.
    Then,
    /// A `when(..)` that lacks its `then`.
    When,
    /// Any other class.
    Unknown,
}

/// The type of a host value, with what a literal needs of its content.
#[derive(Clone, Copy, Debug, PartialEq, Eq, Structural)]
pub enum HostKind {
    Null,
    /// A vector of bytes.
    Raw,
    List,
    /// An integer vector; its element, unless that is missing.
    Integers { first_int: Option<i32> },
    /// A vector of doubles; the bits of its element, unless that is missing.
    Doubles { first_bits: Option<u64> },
    /// A character vector; whether its element is missing.
    Strings { missing: bool },
    /// A logical vector; its element, unless that is missing.
    Logicals { first_bool: Option<bool> },
    ExternalPtr(PointerClass),
    /// Any other type.
    Other,
}

/// What a literal depends on in a host value.
#[derive(Clone, Copy, Debug, PartialEq, Eq, Structural)]
pub struct HostValue {
    pub kind: HostKind,
    pub len: usize,
    /// Whether the value is a date, a time or a date-time.
    pub temporal: bool,
    /// Whether the value is a vector of 64-bit integers stored in doubles.
    pub integer64: bool,
}

/// The data type of a missing scalar.
#[derive(Clone, Copy, Debug, PartialEq, Eq, Structural)]
pub enum NullType {
    Int32,
    Int64,
    Float64,
    String,
    Boolean,
}

/// The literal to build.
#[derive(Clone, Copy, Debug, PartialEq, Eq, Structural)]
pub enum LitPlan {
    /// The untyped null.
    Null,
    /// The bytes of the value, as one binary literal.
    Binary,
    /// The value becomes a series, and the series the literal.
    ViaSeries,
    Int32(i32),
    Int64(i64),
    /// A double, by its bits.
    Float64(u64),
    /// The string the value holds.
    Text,
    Boolean(bool),
    /// A null cast to the type of the missing scalar.
    TypedNull(NullType),
    /// The series the pointer points to.
    PointedSeries,
    /// The expression the pointer points to.
    PointedExpr,
    /// The chain, closed with `otherwise(null)`.
    ThenOtherwiseNull,
}

/// Why no literal can be built.
#[derive(Clone, Copy, Debug, PartialEq, Eq, Structural)]
pub enum LitError {
    /// A `when` without its `then` is no expression.
    WhenWithoutThen,
    /// A pointer to something that cannot be a literal.
    UnsupportedPointer,
    /// A host type that has no literal.
    UnsupportedType,
}

/// The bit pattern that stands for a missing 64-bit integer.
pub const BIT64_NA_ENCODING: i64 = -9223372036854775808i64;

/// The 64-bit integer whose two's complement is `bits`.
pub open spec fn spec_reinterpret(bits: u64) -> int {
    if bits < 0x8000_0000_0000_0000u64 {
        bits as int
    } else {
        bits - 0x1_0000_0000_0000_0000
    }
}

/// The plan for a vector of one element that is not temporal.
pub open spec fn spec_scalar_plan(kind: HostKind, integer64: bool) -> Result<LitPlan, LitError> {
    match kind {
        HostKind::Integers { first_int: Some(v) } => Ok(LitPlan::Int32(v)),
        HostKind::Integers { first_int: None } => Ok(LitPlan::TypedNull(NullType::Int32)),
        HostKind::Doubles { first_bits: Some(bits) } => if integer64 {
            if spec_reinterpret(bits) == BIT64_NA_ENCODING {
                Ok(LitPlan::TypedNull(NullType::Int64))
            } else {
                Ok(LitPlan::Int64(spec_reinterpret(bits) as i64))
            }
        } else {
            Ok(LitPlan::Float64(bits))
        },
        HostKind::Doubles { first_bits: None } => Ok(LitPlan::TypedNull(NullType::Float64)),
        HostKind::Strings { missing } => if missing {
            Ok(LitPlan::TypedNull(NullType::String))
        } else {
            Ok(LitPlan::Text)
        },
        HostKind::Logicals { first_bool: Some(b) } => Ok(LitPlan::Boolean(b)),
        HostKind::Logicals { first_bool: None } => Ok(LitPlan::TypedNull(NullType::Boolean)),
        HostKind::ExternalPtr(PointerClass::Series) => Ok(LitPlan::PointedSeries),
        HostKind::ExternalPtr(PointerClass::Expr) => Ok(LitPlan::PointedExpr),
        HostKind::ExternalPtr(PointerClass::Then) => Ok(LitPlan::ThenOtherwiseNull),
        HostKind::ExternalPtr(PointerClass::When) => Err(LitError::WhenWithoutThen),
        HostKind::ExternalPtr(PointerClass::Unknown) => Err(LitError::UnsupportedPointer),
        _ => Err(LitError::UnsupportedType),
    }
}

/// The literal for a host value.
///
/// Null is the null, and bytes are one binary literal, whatever their
/// length. Every other value that is not exactly one element long, every
/// list and every temporal value goes through a series. What is left is a
/// scalar, and is read as one.
pub open spec fn spec_lit_plan(value: HostValue) -> Result<LitPlan, LitError> {
    if value.kind == HostKind::Null {
        Ok(LitPlan::Null)
    } else if value.kind == HostKind::Raw {
        Ok(LitPlan::Binary)
    } else if value.len != 1 || value.kind == HostKind::List || value.temporal {
        Ok(LitPlan::ViaSeries)
    } else {
        spec_scalar_plan(value.kind, value.integer64)
    }
}

/// Reads the bits of a double as a 64-bit integer in two's complement.
pub fn reinterpret(bits: u64) -> (x: i64)
    ensures
        x as int == spec_reinterpret(bits),
{
    if bits < 0x8000_0000_0000_0000u64 {
        bits as i64
    } else {
        let low: u64 = bits - 0x8000_0000_0000_0000u64;
        (low as i64) + i64::MIN
    }
}

/// Decides which literal to build for a host value.
pub fn lit_plan(value: &HostValue) -> (plan: Result<LitPlan, LitError>)
    ensures
        plan == spec_lit_plan(*value),
{
    match value.kind {
        HostKind::Null => {
            return Ok(LitPlan::Null);
        },
        HostKind::Raw => {
            return Ok(LitPlan::Binary);
        },
        _ => {},
    }
    if value.len != 1 || value.temporal {
        return Ok(LitPlan::ViaSeries);
    }
    match value.kind {
        HostKind::List => Ok(LitPlan::ViaSeries),
        HostKind::Integers { first_int } => match first_int {
            Some(v) => Ok(LitPlan::Int32(v)),
            None => Ok(LitPlan::TypedNull(NullType::Int32)),
        },
        HostKind::Doubles { first_bits } => match first_bits {
            Some(bits) => {
                if value.integer64 {
                    let x = reinterpret(bits);
                    if x == BIT64_NA_ENCODING {
                        Ok(LitPlan::TypedNull(NullType::Int64))
                    } else {
                        Ok(LitPlan::Int64(x))
                    }
                } else {
                    Ok(LitPlan::Float64(bits))
                }
            },
            None => Ok(LitPlan::TypedNull(NullType::Float64)),
        },
        HostKind::Strings { missing } => {
            if missing {
                Ok(LitPlan::TypedNull(NullType::String))
            } else {
                Ok(LitPlan::Text)
            }
        },
        HostKind::Logicals { first_bool } => match first_bool {
            Some(b) => Ok(LitPlan::Boolean(b)),
            None => Ok(LitPlan::TypedNull(NullType::Boolean)),
        },
        HostKind::ExternalPtr(class) => match class {
            PointerClass::Series => Ok(LitPlan::PointedSeries),
            PointerClass::Expr => Ok(LitPlan::PointedExpr),
            PointerClass::Then => Ok(LitPlan::ThenOtherwiseNull),
            PointerClass::When => Err(LitError::WhenWithoutThen),
            PointerClass::Unknown => Err(LitError::UnsupportedPointer),
        },
        _ => Err(LitError::UnsupportedType),
    }
}

/// The message that goes with an error.
pub fn lit_error_message(error: LitError) -> (m: String)
    ensures
        m@ == (match error {
            LitError::WhenWithoutThen =>
                "Cannot use a When or ChainedWhen-statement as Expr without a $then()"@,
            LitError::UnsupportedPointer =>
                "pl$lit() this ExternalPtr class is not currently supported"@,
            LitError::UnsupportedType => "unsupported R type "@,
        }),
{
    match error {
        LitError::WhenWithoutThen =>
            "Cannot use a When or ChainedWhen-statement as Expr without a $then()".to_owned(),
        LitError::UnsupportedPointer =>
            "pl$lit() this ExternalPtr class is not currently supported".to_owned(),
        LitError::UnsupportedType => "unsupported R type ".to_owned(),
    }
}

/// A literal is refused only for a single pointer that is no series,
/// expression or closed chain, or for a single value of a type that has no
/// literal; a value of any other length is never refused.
pub proof fn lemma_only_scalars_are_refused(value: HostValue)
    requires
        spec_lit_plan(value) is Err,
    ensures
        value.len == 1,
        !value.temporal,
        value.kind is ExternalPtr || value.kind is Other,
{
}

/// A missing scalar becomes a null of the type of its vector, and no scalar
/// that is present does.
pub proof fn lemma_missing_scalar_is_typed_null(value: HostValue)
    requires
        value.len == 1,
        !value.temporal,
    ensures
        value.kind == (HostKind::Integers { first_int: None }) ==> spec_lit_plan(value) == Ok::<
            LitPlan,
            LitError,
        >(LitPlan::TypedNull(NullType::Int32)),
        value.kind == (HostKind::Logicals { first_bool: None }) ==> spec_lit_plan(value) == Ok::<
            LitPlan,
            LitError,
        >(LitPlan::TypedNull(NullType::Boolean)),
        value.kind == (HostKind::Strings { missing: true }) ==> spec_lit_plan(value) == Ok::<
            LitPlan,
            LitError,
        >(LitPlan::TypedNull(NullType::String)),
        value.kind == (HostKind::Doubles { first_bits: None }) ==> spec_lit_plan(value) == Ok::<
            LitPlan,
            LitError,
        >(LitPlan::TypedNull(NullType::Float64)),
        value.integer64 && value.kind == (HostKind::Doubles {
            first_bits: Some(0x8000_0000_0000_0000u64),
        }) ==> spec_lit_plan(value) == Ok::<LitPlan, LitError>(
            LitPlan::TypedNull(NullType::Int64),
        ),
        spec_lit_plan(value) matches Ok(LitPlan::TypedNull(t)) ==> match t {
            NullType::Int32 => value.kind == (HostKind::Integers { first_int: None }),
            NullType::Boolean => value.kind == (HostKind::Logicals { first_bool: None }),
            NullType::String => value.kind == (HostKind::Strings { missing: true }),
            NullType::Float64 => value.kind == (HostKind::Doubles { first_bits: None }),
            NullType::Int64 => value.integer64 && value.kind == (HostKind::Doubles {
                first_bits: Some(0x8000_0000_0000_0000u64),
            }),
        },
{
}

} // verus!
