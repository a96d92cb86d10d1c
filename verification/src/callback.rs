//! The calls the expression front end makes over the bridge.
//!
//! Each kind of user callback has a function that builds its envelope and a
//! function that takes the received payload apart. The round trip between
//! the two is the channel's.
use vstd::prelude::*;
use vstd::string::StringExecFns;
use polars::prelude::{DataType, Series};
use smartstring::{LazyCompact, SmartString};
use crate::envelope::{CallbackHandle, Envelope, Payload};
use crate::error::BridgeError;

verus! {

/// A field name as the engine wants it: a `smartstring::SmartString` in the
/// `LazyCompact` layout.
#[verifier::external_body]
pub struct FieldName {
    pub inner: SmartString<LazyCompact>,
}

/// The characters a field name holds.
pub uninterp spec fn field_name_chars(name: FieldName) -> Seq<char>;

/// Calls `SmartString::from(String)`, which keeps the characters of the
/// string, inline or boxed as its length asks.
#[verifier::external_body]
fn to_field_name(s: String) -> (name: FieldName)
    ensures
        field_name_chars(name) == s@,
{
    FieldName { inner: SmartString::from(s) }
}

/// The envelope for a user transform over one batch.
pub fn batch_call(handle: CallbackHandle, input: Series) -> (e: Envelope)
    ensures
        e == Envelope::BatchToBatch(handle, input),
{
    Envelope::BatchToBatch(handle, input)
}

/// The envelope that asks a naming function for the name of the field at
/// `index`.
pub fn field_name_call(handle: CallbackHandle, index: usize) -> (e: Envelope)
    ensures
        e == Envelope::ScalarToText(handle, index as u64),
{
    Envelope::ScalarToText(handle, index as u64)
}

/// The envelope that asks a renaming function for the new name of `name`.
pub fn rename_call(handle: CallbackHandle, name: &str) -> (e: Envelope)
    ensures
        e matches Envelope::NameToName(h, n) && h == handle && n@ == name@,
{
    Envelope::NameToName(handle, name.to_owned())
}

/// The batch in what a round trip returned.
pub open spec fn spec_expect_batch(received: Result<Payload, BridgeError>) -> Result<
    Series,
    BridgeError,
> {
    match received {
        Ok(Payload::Batch(s)) => Ok(s),
        Ok(Payload::Text(_)) => Err(BridgeError::ShapeMismatch),
        Err(e) => Err(e),
    }
}

/// The text in what a round trip returned.
pub open spec fn spec_expect_text(received: Result<Payload, BridgeError>) -> Result<
    String,
    BridgeError,
> {
    match received {
        Ok(Payload::Text(s)) => Ok(s),
        Ok(Payload::Batch(_)) => Err(BridgeError::ShapeMismatch),
        Err(e) => Err(e),
    }
}

/// Takes the batch out of what a round trip returned. An error stays as it
/// is; a text where a batch is due is a `ShapeMismatch`.
pub fn expect_batch(received: Result<Payload, BridgeError>) -> (r: Result<Series, BridgeError>)
    ensures
        r == spec_expect_batch(received),
{
    match received {
        Ok(Payload::Batch(s)) => Ok(s),
        Ok(Payload::Text(_)) => Err(BridgeError::ShapeMismatch),
        Err(e) => Err(e),
    }
}

/// Takes the text out of what a round trip returned. An error stays as it
/// is; a batch where a text is due is a `ShapeMismatch`.
pub fn expect_text(received: Result<Payload, BridgeError>) -> (r: Result<String, BridgeError>)
    ensures
        r == spec_expect_text(received),
{
    match received {
        Ok(Payload::Text(s)) => Ok(s),
        Ok(Payload::Batch(_)) => Err(BridgeError::ShapeMismatch),
        Err(e) => Err(e),
    }
}

/// The field name a naming function returned, as the engine wants it.
pub fn expect_field_name(received: Result<Payload, BridgeError>) -> (r: Result<
    FieldName,
    BridgeError,
>)
    ensures
        match spec_expect_text(received) {
            Ok(s) => r is Ok && field_name_chars(r->Ok_0) == s@,
            Err(e) => r == Err::<FieldName, BridgeError>(e),
        },
{
    match expect_text(received) {
        Ok(s) => Ok(to_field_name(s)),
        Err(e) => Err(e),
    }
}

/// The data type of a callback's output column: the one the user declared,
/// or, with none declared, that of the input column.
pub fn output_dtype(declared: Option<DataType>, input: DataType) -> (d: DataType)
    ensures
        d == (match declared {
            Some(dt) => dt,
            None => input,
        }),
{
    match declared {
        Some(dt) => dt,
        None => input,
    }
}

/// What a renaming function's call ended with, as the host reported it.
pub enum HostCall {
    /// The function returned a string.
    Text(String),
    /// The function returned something that is no string.
    NotText,
    /// The function raised an error; the text describes it.
    Raised(String),
}

/// The message for a renaming function that raised an error described by `error`.
pub open spec fn spec_raised_message(error: Seq<char>) -> Seq<char> {
    "in $name$map(): user function raised this error: "@ + error
}

/// The new name, or the message of the error to report.
pub open spec fn spec_name_map_result(call: HostCall) -> Result<Seq<char>, Seq<char>> {
    match call {
        HostCall::Text(s) => Ok(s@),
        HostCall::NotText => Err("in $name$map(): R function return value was not a string"@),
        HostCall::Raised(error) => Err(spec_raised_message(error@)),
    }
}

/// Turns the outcome of a renaming function's call into the new name or
/// into the message of the error that the engine is to report.
pub fn name_map_result(call: HostCall) -> (r: Result<String, String>)
    ensures
        match spec_name_map_result(call) {
            Ok(name) => r is Ok && r->Ok_0@ == name,
            Err(message) => r is Err && r->Err_0@ == message,
        },
{
    match call {
        HostCall::Text(s) => Ok(s),
        HostCall::NotText => Err(
            "in $name$map(): R function return value was not a string".to_owned(),
        ),
        HostCall::Raised(error) => Err(
            "in $name$map(): user function raised this error: ".to_owned().concat(error.as_str()),
        ),
    }
}

} // verus!
