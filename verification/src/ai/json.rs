//! Reading values out of the JSON bodies that AI providers reply with.
//!
//! A body is read with `serde_json::from_slice` into a JSON value, and a
//! value inside it is found by a JSON pointer (RFC 6901) as
//! `serde_json::Value::pointer` resolves it: `""` is the whole value, and
//! each `/`-separated token names an object member or, on an array, an index
//! in decimal. What the parser finds depends on the bytes alone, so each
//! lookup is named by a function of the body and the pointer.

use vstd::prelude::*;
use vstd::string::*;
use crate::error::CntrlError;
use crate::text::{concat_str, decimal, decimal_string, opt_view};

verus! {

/// Whether `serde_json::from_slice` reads `body` as a JSON value.
pub uninterp spec fn json_valid(body: Seq<u8>) -> bool;

/// The string at `pointer` in the JSON value read from `body`: `None` when
/// the body is not JSON, nothing is there, or what is there is no string.
pub uninterp spec fn json_str_at(body: Seq<u8>, pointer: Seq<char>) -> Option<Seq<char>>;

/// The unsigned integer at `pointer` in the JSON value read from `body`, as
/// `serde_json::Value::as_u64` reads it: `None` when the body is not JSON,
/// nothing is there, or what is there is no integer that fits in 64 bits.
pub uninterp spec fn json_u64_at(body: Seq<u8>, pointer: Seq<char>) -> Option<u64>;

/// The length of the array at `pointer` in the JSON value read from `body`:
/// `None` when the body is not JSON, nothing is there, or what is there is
/// no array.
pub uninterp spec fn json_array_len_at(body: Seq<u8>, pointer: Seq<char>) -> Option<usize>;

/// Calls `serde_json::from_slice` on `body`, asking for any JSON value, and
/// tells whether it succeeded.
#[verifier::external_body]
pub(crate) fn json_parses(body: &[u8]) -> (r: bool)
    ensures
        r == json_valid(body@),
{
    serde_json::from_slice::<serde_json::Value>(body).is_ok()
}

/// Reads `body` with `serde_json::from_slice` and looks up `pointer` with
/// `serde_json::Value::pointer`, then `as_str`.
#[verifier::external_body]
pub(crate) fn json_string_at(body: &[u8], pointer: &str) -> (r: Option<String>)
    ensures
        opt_view(r) == json_str_at(body@, pointer@),
{
    match serde_json::from_slice::<serde_json::Value>(body) {
        Ok(v) => v.pointer(pointer).and_then(serde_json::Value::as_str).map(str::to_string),
        Err(_) => None,
    }
}

/// Reads `body` with `serde_json::from_slice` and looks up `pointer` with
/// `serde_json::Value::pointer`, then `as_u64`.
#[verifier::external_body]
pub(crate) fn json_number_at(body: &[u8], pointer: &str) -> (r: Option<u64>)
    ensures
        r == json_u64_at(body@, pointer@),
{
    match serde_json::from_slice::<serde_json::Value>(body) {
        Ok(v) => v.pointer(pointer).and_then(serde_json::Value::as_u64),
        Err(_) => None,
    }
}

/// Reads `body` with `serde_json::from_slice` and looks up `pointer` with
/// `serde_json::Value::pointer`, then `as_array` and the array's length.
#[verifier::external_body]
pub(crate) fn json_array_length(body: &[u8], pointer: &str) -> (r: Option<usize>)
    ensures
        r == json_array_len_at(body@, pointer@),
{
    match serde_json::from_slice::<serde_json::Value>(body) {
        Ok(v) => v.pointer(pointer).and_then(serde_json::Value::as_array).map(Vec::len),
        Err(_) => None,
    }
}

/// The text of an optional value, or `default` when there is none.
pub open spec fn text_or(value: Option<Seq<char>>, default: Seq<char>) -> Seq<char> {
    match value {
        Some(t) => t,
        None => default,
    }
}

/// The length of an optional array, 0 when there is none.
pub open spec fn len_or_zero(len: Option<usize>) -> nat {
    match len {
        Some(n) => n as nat,
        None => 0,
    }
}

/// The text of a body that could not be read as JSON, as the HTTP client
/// reports it.
pub open spec fn decode_failure_text() -> Seq<char> {
    "error decoding response body"@
}

/// The error for a body that could not be read as JSON: `label`, a colon,
/// and the decoding failure.
pub open spec fn decode_failure_message(label: Seq<char>) -> Seq<char> {
    label + ": "@ + decode_failure_text()
}

/// The error for a body that could not be read as JSON, labelled `label`.
pub fn decode_failure(label: &str) -> (r: CntrlError)
    ensures
        r matches CntrlError::Ai(m) && m@ == decode_failure_message(label@),
{
    let head = concat_str(label, ": ");
    CntrlError::Ai(concat_str(head.as_str(), "error decoding response body"))
}

/// The pointer to member `field` of element `i` of the array at `base`.
pub open spec fn item_pointer(base: Seq<char>, i: nat, field: Seq<char>) -> Seq<char> {
    base + "/"@ + decimal(i) + "/"@ + field
}

/// The pointer to member `field` of element `i` of the array at `base`.
pub fn item_pointer_text(base: &str, i: usize, field: &str) -> (r: String)
    ensures
        r@ == item_pointer(base@, i as nat, field@),
{
    let a = concat_str(base, "/");
    let index = decimal_string(i);
    let b = concat_str(a.as_str(), index.as_str());
    let c = concat_str(b.as_str(), "/");
    let r = concat_str(c.as_str(), field);
    assert(r@ =~= item_pointer(base@, i as nat, field@));
    r
}

} // verus!
