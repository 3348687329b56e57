//! The boundary to `serde_json`, which parses the compositor's replies.
//!
//! Nothing in this file is proved. Each item states what is taken on trust
//! of the function that it names.

use vstd::prelude::*;

verus! {

/// `serde_json::Value`, a JSON document. Its content is not visible to the
/// verifier: what the library reads from one, it reads through the functions
/// of this file.
#[verifier::external_type_specification]
#[verifier::external_body]
pub struct ExValue(serde_json::Value);

/// `serde_json::Error`, which says why a text is not the JSON that was asked
/// for.
#[verifier::external_type_specification]
#[verifier::external_body]
pub struct ExError(serde_json::Error);

/// What `String::from_utf8_lossy` makes of `bytes`.
pub uninterp spec fn lossy_text(bytes: Seq<u8>) -> Seq<char>;

/// What `serde_json::from_str` makes of `text` when asked for a list of
/// documents: the list, or nothing where `text` is not a JSON array.
pub uninterp spec fn json_array(text: Seq<char>) -> Option<Seq<serde_json::Value>>;

/// What indexing `value` by the string `key` refers to.
pub uninterp spec fn json_member(value: serde_json::Value, key: Seq<char>) -> serde_json::Value;

/// What `value` reads as when it is displayed.
pub uninterp spec fn json_text(value: serde_json::Value) -> Seq<char>;

/// Whether `value` compares equal to the boolean `true`.
pub uninterp spec fn json_is_true(value: serde_json::Value) -> bool;

/// Calls `String::from_utf8_lossy`, which decodes `bytes` as UTF-8 and puts
/// U+FFFD in the place of what is not. Taken on trust: the text depends on
/// the bytes alone.
#[verifier::external_body]
pub(crate) fn decode_lossy(bytes: &[u8]) -> (text: String)
    ensures
        text@ == lossy_text(bytes@),
{
    String::from_utf8_lossy(bytes).into_owned()
}

/// Calls `serde_json::from_str` for a `Vec` of `serde_json::Value`. Taken on
/// trust: the call returns, and whether it succeeds and the documents it
/// gives depend on the text alone.
#[verifier::external_body]
pub(crate) fn parse_array(text: &str) -> (r: Result<Vec<serde_json::Value>, serde_json::Error>)
    ensures
        r is Ok <==> json_array(text@) is Some,
        r matches Ok(values) ==> json_array(text@) == Some(values@),
{
    serde_json::from_str::<Vec<serde_json::Value>>(text)
}

/// Calls the `Index` operator of `serde_json::Value` with a string key, which
/// refers to the member of that name where `value` is an object that has one
/// and to a null document otherwise, and never panics. Taken on trust: the
/// document referred to depends on the value and the key alone.
#[verifier::external_body]
pub(crate) fn member<'a>(value: &'a serde_json::Value, key: &str) -> (m: &'a serde_json::Value)
    ensures
        *m == json_member(*value, key@),
{
    &value[key]
}

/// Calls `to_string` on a `serde_json::Value`, which writes the document as
/// compact JSON text through its `Display` impl. Taken on trust: the text
/// depends on the value alone.
#[verifier::external_body]
pub(crate) fn display(value: &serde_json::Value) -> (text: String)
    ensures
        text@ == json_text(*value),
{
    value.to_string()
}

/// Calls the `==` of `serde_json::Value` against a `bool`, with `true`: it
/// holds of the boolean document `true` and of no other. Taken on trust: the
/// answer depends on the value alone.
#[verifier::external_body]
pub(crate) fn is_true(value: &serde_json::Value) -> (b: bool)
    ensures
        b == json_is_true(*value),
{
    *value == true
}

} // verus!
