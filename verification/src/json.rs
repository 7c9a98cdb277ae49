//! Reading members out of a JSON document.
//!
//! The parsing and rendering are `serde_json`'s. What it returns is not
//! restated here: each result has a name, and the functions that build on it
//! say what they do with the named text.

use vstd::prelude::*;

verus! {

#[verifier::external_type_specification]
#[verifier::external_body]
pub struct ExJsonError(serde_json::Error);

/// The compact JSON text of member `key` of the JSON document `document`,
/// as `serde_json` renders it; `None` where `document` does not parse.
pub uninterp spec fn json_member_text(document: Seq<char>, key: Seq<char>) -> Option<Seq<char>>;

/// The JSON document `document` as `serde_json` pretty-prints it; `None`
/// where `document` does not parse.
pub uninterp spec fn json_pretty_text(document: Seq<char>) -> Option<Seq<char>>;

/// Parses `document` with `serde_json::from_str` into a `serde_json::Value`,
/// indexes the value by `key` and renders what is found with the value's
/// `Display`. The contract claims no more than that the outcome is a function
/// of the two texts, named `json_member_text`; an error stands for `None`.
#[verifier::external_body]
pub(crate) fn member_text(document: &str, key: &str) -> (text: Result<String, serde_json::Error>)
    ensures
        text matches Ok(t) ==> json_member_text(document@, key@) == Some(t@),
        text is Err ==> json_member_text(document@, key@) is None,
{
    let value: serde_json::Value = serde_json::from_str(document)?;
    Ok(value[key].to_string())
}

/// Parses `document` with `serde_json::from_str` into a `serde_json::Value`
/// and renders it with `serde_json::to_string_pretty`. The contract claims no
/// more than that the outcome is a function of the text, named
/// `json_pretty_text`; an error stands for `None`.
#[verifier::external_body]
pub(crate) fn pretty_text(document: &str) -> (text: Result<String, serde_json::Error>)
    ensures
        text matches Ok(t) ==> json_pretty_text(document@) == Some(t@),
        text is Err ==> json_pretty_text(document@) is None,
{
    let value: serde_json::Value = serde_json::from_str(document)?;
    serde_json::to_string_pretty(&value)
}

} // verus!
