//! Lookups in JSON texts with `serde_json`. A value is addressed by a JSON
//! pointer (RFC 6901), such as `/snapshots/0/name`; what each lookup finds is
//! named, as a function of the text and the pointer.
use serde_json::Value;
use vstd::prelude::*;

verus! {

/// Whether the text is JSON with a value at the pointer.
pub uninterp spec fn json_has(text: Seq<char>, pointer: Seq<char>) -> bool;

/// The value at the pointer when it is an integer that fits in `u64`.
pub uninterp spec fn json_u64_at(text: Seq<char>, pointer: Seq<char>) -> Option<u64>;

/// The length of the value at the pointer when it is an array.
pub uninterp spec fn json_array_len_at(text: Seq<char>, pointer: Seq<char>) -> Option<usize>;

/// The value at the pointer when it is a string.
pub uninterp spec fn json_str_at(text: Seq<char>, pointer: Seq<char>) -> Option<Seq<char>>;

/// Parses `text` (`serde_json::from_str::<Value>`) and says whether
/// `Value::pointer` finds a value at `pointer`. Which texts are JSON and what
/// the pointer finds is `serde_json`'s and is only named.
#[verifier::external_body]
pub(crate) fn json_has_value(text: &str, pointer: &str) -> (r: bool)
    ensures
        r == json_has(text@, pointer@),
{
    serde_json::from_str::<Value>(text).is_ok_and(|doc| doc.pointer(pointer).is_some())
}

/// Parses `text` and reads the value at `pointer` with `Value::as_u64`.
#[verifier::external_body]
pub(crate) fn json_u64(text: &str, pointer: &str) -> (r: Option<u64>)
    ensures
        r == json_u64_at(text@, pointer@),
{
    serde_json::from_str::<Value>(text).ok()?.pointer(pointer)?.as_u64()
}

/// Parses `text` and reads the length of the value at `pointer` with
/// `Value::as_array`.
#[verifier::external_body]
pub(crate) fn json_array_len(text: &str, pointer: &str) -> (r: Option<usize>)
    ensures
        r == json_array_len_at(text@, pointer@),
{
    Some(serde_json::from_str::<Value>(text).ok()?.pointer(pointer)?.as_array()?.len())
}

/// Parses `text` and reads the value at `pointer` with `Value::as_str`.
#[verifier::external_body]
pub(crate) fn json_str(text: &str, pointer: &str) -> (r: Option<String>)
    ensures
        r.deep_view() == json_str_at(text@, pointer@),
{
    Some(serde_json::from_str::<Value>(text).ok()?.pointer(pointer)?.as_str()?.to_owned())
}

/// `String::from_utf8`: the text the bytes encode, `None` when they are not
/// valid UTF-8.
#[verifier::external_body]
pub(crate) fn utf8_text(bytes: Vec<u8>) -> (r: Option<String>)
    ensures
        r is Some <==> vstd::utf8::valid_utf8(bytes@),
        r matches Some(s) ==> s@ == vstd::utf8::decode_utf8(bytes@),
{
    String::from_utf8(bytes).ok()
}

} // verus!
