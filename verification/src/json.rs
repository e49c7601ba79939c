//! Reading scalar members out of a decoded JSON document.
//!
//! A document is a `serde_json::Value`. Its members are addressed by JSON
//! Pointer (RFC 6901): `/collection/items/0/href` names the member `href` of
//! element 0 of the array `items` of the object `collection`, and the empty
//! pointer names the document itself. An element of an array is named by its
//! index in decimal without leading zeros.

use serde_json::Value;
use vstd::prelude::*;

verus! {

/// A decoded JSON document; its inside is known only through the functions below.
#[verifier::external_type_specification]
#[verifier::external_body]
pub struct ExValue(serde_json::Value);

/// The strings of a document: each pointer that addresses a JSON string,
/// mapped to that string.
pub uninterp spec fn json_strings(doc: Value) -> Map<Seq<char>, Seq<char>>;

/// The unsigned numbers of a document: each pointer that addresses a JSON
/// number written as an integer between 0 and `u64::MAX`, mapped to that
/// number.
pub uninterp spec fn json_numbers(doc: Value) -> Map<Seq<char>, u64>;

/// The arrays of a document: each pointer that addresses a JSON array,
/// mapped to the number of its elements.
pub uninterp spec fn json_arrays(doc: Value) -> Map<Seq<char>, nat>;

/// `Value::pointer` followed by `Value::as_str`: the string that `pointer`
/// addresses, or `None` where it addresses nothing or something that is not a
/// string.
#[verifier::external_body]
pub(crate) fn string_at(doc: &Value, pointer: &str) -> (found: Option<String>)
    ensures
        found is Some <==> json_strings(*doc).contains_key(pointer@),
        found matches Some(s) ==> s@ == json_strings(*doc)[pointer@],
{
    Some(doc.pointer(pointer)?.as_str()?.to_owned())
}

/// `Value::pointer` followed by `Value::as_u64`: the number that `pointer`
/// addresses, or `None` where it addresses nothing or something that is not
/// written as an integer between 0 and `u64::MAX`.
#[verifier::external_body]
pub(crate) fn number_at(doc: &Value, pointer: &str) -> (found: Option<u64>)
    ensures
        found is Some <==> json_numbers(*doc).contains_key(pointer@),
        found matches Some(n) ==> n == json_numbers(*doc)[pointer@],
{
    doc.pointer(pointer)?.as_u64()
}

/// `Value::pointer` followed by `Value::as_array`: the length of the array
/// that `pointer` addresses, or `None` where it addresses nothing or
/// something that is not an array.
#[verifier::external_body]
pub(crate) fn array_len_at(doc: &Value, pointer: &str) -> (found: Option<usize>)
    ensures
        found is Some <==> json_arrays(*doc).contains_key(pointer@),
        found matches Some(n) ==> n == json_arrays(*doc)[pointer@],
{
    Some(doc.pointer(pointer)?.as_array()?.len())
}

} // verus!
