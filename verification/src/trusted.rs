//! The calls into `serde_json` and `reqwest`, each with the contract that the
//! rest of the library relies on. Nothing in this file is proved: the
//! contracts restate what the crates' sources show.

use crate::json::{Json, JsonView};
use vstd::prelude::*;

verus! {

/// `serde_json::Value`, the document type that `serde_json` parses into.
#[verifier::external_type_specification]
#[verifier::external_body]
pub struct ExValue(serde_json::Value);

/// The tree that a `serde_json::Value` holds: its variant, and below it the
/// string, the boolean, the integer, the elements in order, or the members in
/// the order in which the value's map yields them.
pub uninterp spec fn value_tree(value: serde_json::Value) -> JsonView;

/// What `serde_json::from_str::<Value>` makes of a text: the tree of the
/// parsed value, or `None` where the text is rejected.
pub uninterp spec fn json_parse(text: Seq<char>) -> Option<JsonView>;

/// What `serde_json::to_string` writes for a string: the JSON string literal,
/// quotes and escapes included, or `None` where it reports an error.
pub uninterp spec fn json_string_literal(text: Seq<char>) -> Option<Seq<char>>;

/// Whether `HeaderValue::from_str` accepts a character: a tab, or anything
/// from the space upwards but the delete character.
pub open spec fn header_char(c: char) -> bool {
    c == '\t' || (c >= ' ' && c != '\x7f')
}

/// Calls `serde_json::from_str` for a `Value`. The result is a function of the
/// text alone, which `json_parse` names.
#[verifier::external_body]
pub(crate) fn value_from_text(text: &str) -> (value: Option<serde_json::Value>)
    ensures
        match value {
            Some(v) => json_parse(text@) == Some(value_tree(v)),
            None => json_parse(text@) is None,
        },
{
    serde_json::from_str::<serde_json::Value>(text).ok()
}

/// Copies a `serde_json::Value` into a [`Json`], variant by variant. A number
/// is an `Unsigned` where `as_u64` gives it, a `Negative` where only `as_i64`
/// does, and `Real` otherwise.
#[verifier::external_body]
pub(crate) fn json_of_value(value: &serde_json::Value) -> (json: Json)
    ensures
        json@ == value_tree(*value),
{
    match value {
        serde_json::Value::Null => Json::Null,
        serde_json::Value::Bool(b) => Json::Bool(*b),
        serde_json::Value::Number(n) => match (n.as_u64(), n.as_i64()) {
            (Some(u), _) => Json::Unsigned(u),
            (None, Some(i)) => Json::Negative(i),
            (None, None) => Json::Real,
        },
        serde_json::Value::String(s) => Json::Text(s.clone()),
        serde_json::Value::Array(items) => Json::Array(items.iter().map(json_of_value).collect()),
        serde_json::Value::Object(map) => Json::Object(
            map.iter().map(|(key, member)| (key.clone(), json_of_value(member))).collect(),
        ),
    }
}

/// Calls `serde_json::to_string` on a string slice. The result is a function
/// of the characters alone, which `json_string_literal` names.
#[verifier::external_body]
pub(crate) fn quote(text: &str) -> (literal: Option<String>)
    ensures
        match literal {
            Some(l) => json_string_literal(text@) == Some(l@),
            None => json_string_literal(text@) is None,
        },
{
    serde_json::to_string(text).ok()
}

/// Calls `reqwest::header::HeaderValue::from_str` and reports whether it
/// accepted the text. It does so exactly when every byte is a tab or is at
/// least 32 and not 127; a character outside ASCII is encoded in bytes of 128
/// and more, so the test on bytes is the test on characters.
#[verifier::external_body]
pub(crate) fn header_value_accepts(text: &str) -> (accepted: bool)
    ensures
        accepted == (forall|i: int| 0 <= i < text@.len() ==> header_char(#[trigger] text@[i])),
{
    reqwest::header::HeaderValue::from_str(text).is_ok()
}

} // verus!
