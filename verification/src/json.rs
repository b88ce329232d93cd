//! JSON values, as the `serde_json` crate keeps them, and the calls into
//! that crate which the library makes on them.

use vstd::prelude::*;

verus! {

#[verifier::external_type_specification]
#[verifier::external_body]
pub struct ExValue(serde_json::Value);

/// What a JSON value holds: the compact text that `serde_json::to_string`
/// writes for it.
pub uninterp spec fn json_of(value: serde_json::Value) -> Seq<char>;

/// What `serde_json::from_str` makes of a text: the compact text of the value
/// it reads, or nothing where the text is no JSON.
pub uninterp spec fn json_parsed(text: Seq<char>) -> Option<Seq<char>>;

/// What `serde_json::to_string_pretty` writes for the value whose compact
/// text is given.
pub uninterp spec fn json_pretty(compact: Seq<char>) -> Seq<char>;

/// What `serde_json::Value::as_str` finds in the value whose compact text is
/// given: the text of a JSON string, nothing for every other value.
pub uninterp spec fn json_string(compact: Seq<char>) -> Option<Seq<char>>;

/// `serde_json::from_str`, reading a `Value`. A failure comes back as the
/// codec's message, of which nothing is claimed.
#[verifier::external_body]
pub(crate) fn parse_json(text: &str) -> (res: Result<serde_json::Value, String>)
    ensures
        match res {
            Ok(value) => json_parsed(text@) == Some(json_of(value)),
            Err(_) => json_parsed(text@) is None,
        },
{
    serde_json::from_str::<serde_json::Value>(text).map_err(|e| e.to_string())
}

/// `serde_json::to_string` of a `Value`: its compact text. Writing a
/// `Value` into memory meets nothing that can fail: its numbers are finite
/// and the keys of its objects are texts.
#[verifier::external_body]
pub(crate) fn json_text(value: &serde_json::Value) -> (res: Result<String, String>)
    ensures
        res is Ok,
        res matches Ok(text) ==> text@ == json_of(*value),
{
    serde_json::to_string(value).map_err(|e| e.to_string())
}

/// `serde_json::to_string_pretty` of a `Value`: its indented text. Writing
/// succeeds for the same reason as in `json_text`.
#[verifier::external_body]
pub(crate) fn json_text_pretty(value: &serde_json::Value) -> (res: Result<String, String>)
    ensures
        res is Ok,
        res matches Ok(text) ==> text@ == json_pretty(json_of(*value)),
{
    serde_json::to_string_pretty(value).map_err(|e| e.to_string())
}

/// `Clone::clone` of a `Value`: a value equal to the one given.
#[verifier::external_body]
pub(crate) fn clone_value(value: &serde_json::Value) -> (copy: serde_json::Value)
    ensures
        copy == *value,
{
    value.clone()
}

/// `serde_json::Value::as_str`, copied into a `String`.
#[verifier::external_body]
pub(crate) fn value_as_str(value: &serde_json::Value) -> (text: Option<String>)
    ensures
        match text {
            Some(t) => json_string(json_of(*value)) == Some(t@),
            None => json_string(json_of(*value)) is None,
        },
{
    value.as_str().map(|text| text.to_string())
}

} // verus!
