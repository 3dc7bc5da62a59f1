//! The JSON reader that configuration documents go through.
//!
//! Reading JSON text is left to `serde_json`. Nothing in this module is
//! proved: it states what the rest of the crate relies on. A parsed document
//! is opaque here; the functions below give names to what `serde_json` reports
//! about it, so that contracts elsewhere can speak of a document's members.

use vstd::prelude::*;

verus! {

/// `serde_json::Value`, a parsed JSON document or a part of one.
#[verifier::external_type_specification]
#[verifier::external_body]
pub struct ExValue(serde_json::Value);

/// `serde_json::Error`, the reason for which a text could not be read.
#[verifier::external_type_specification]
#[verifier::external_body]
pub struct ExError(serde_json::Error);

/// What `serde_json::from_slice` makes of `bytes` when asked for a
/// `serde_json::Value`.
pub uninterp spec fn json_parse(bytes: Seq<u8>) -> Result<serde_json::Value, serde_json::Error>;

/// What `serde_json::Value::get` finds in `value` under the string `key`.
pub uninterp spec fn json_member(value: serde_json::Value, key: Seq<char>) -> Option<
    serde_json::Value,
>;

/// What `serde_json::Value::as_u64` reads from `value`.
pub uninterp spec fn json_as_u64(value: serde_json::Value) -> Option<u64>;

/// What `serde_json::Value::is_object` says of `value`.
pub uninterp spec fn json_is_object(value: serde_json::Value) -> bool;

/// What `serde_json::Value::is_null` says of `value`.
pub uninterp spec fn json_is_null(value: serde_json::Value) -> bool;

/// The line that `serde_json::Error::line` reports for `error`.
pub uninterp spec fn json_error_line(error: serde_json::Error) -> usize;

/// The column that `serde_json::Error::column` reports for `error`.
pub uninterp spec fn json_error_column(error: serde_json::Error) -> usize;

/// Calls `serde_json::from_slice` for a `serde_json::Value`. The outcome
/// depends on the bytes alone; the contract gives it its name and claims
/// nothing else.
#[verifier::external_body]
pub(crate) fn parse(bytes: &[u8]) -> (r: Result<serde_json::Value, serde_json::Error>)
    ensures
        r == json_parse(bytes@),
{
    serde_json::from_slice::<serde_json::Value>(bytes)
}

/// Calls `serde_json::Value::get` with a string index: the member of an
/// object under `key`, and `None` where there is no such member or `value` is
/// no object. The contract names the outcome.
#[verifier::external_body]
pub(crate) fn member<'a>(value: &'a serde_json::Value, key: &str) -> (r: Option<
    &'a serde_json::Value,
>)
    ensures
        match r {
            Some(m) => json_member(*value, key@) == Some(*m),
            None => json_member(*value, key@) is None,
        },
{
    value.get(key)
}

/// `as_u64` gives the number that `value` holds if `value` is an integer from
/// zero to `u64::MAX`, and `None` for every other value.
pub assume_specification[ serde_json::Value::as_u64 ](value: &serde_json::Value) -> (r: Option<
    u64,
>)
    ensures
        r == json_as_u64(*value),
;

/// `is_object` tells whether `value` is a JSON object.
pub assume_specification[ serde_json::Value::is_object ](value: &serde_json::Value) -> (r: bool)
    ensures
        r == json_is_object(*value),
;

/// `is_null` tells whether `value` is the JSON `null`.
pub assume_specification[ serde_json::Value::is_null ](value: &serde_json::Value) -> (r: bool)
    ensures
        r == json_is_null(*value),
;

/// `line` gives the one-based line at which reading stopped.
pub assume_specification[ serde_json::Error::line ](error: &serde_json::Error) -> (r: usize)
    ensures
        r == json_error_line(*error),
;

/// `column` gives the column at which reading stopped.
pub assume_specification[ serde_json::Error::column ](error: &serde_json::Error) -> (r: usize)
    ensures
        r == json_error_column(*error),
;

} // verus!
