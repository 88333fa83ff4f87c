//! Finding the model a completion request names in its body: the `model`
//! field of the JSON document, or, when the body is no JSON document, the
//! first `"model": "..."` pair a pattern finds in the text.
use vstd::prelude::*;

verus! {

/// The pattern that finds the model in a body that is not a JSON document;
/// its first group is the model's name.
pub const MODEL_PATTERN: &'static str = "\"model\"\\s*:\\s*[\"']([^\"']*)[\"']";

/// The key of the body's JSON field that names the model.
pub const MODEL_KEY: &'static str = "model";

/// What `serde_json` reads from `body` under `key`: `None` when `body` is no
/// JSON document; otherwise the string value of the document's field `key`,
/// `None` when the document is no object, has no such field, or its value is
/// no string.
pub uninterp spec fn json_string_field(body: Seq<char>, key: Seq<char>) -> Option<Option<Seq<char>>>;

/// What the `regex` crate finds of `pattern` in `text`: `None` when the
/// pattern does not compile; otherwise the text of the first group of the
/// leftmost match, `None` when there is no match or the group took no part in
/// it.
pub uninterp spec fn regex_group1(pattern: Seq<char>, text: Seq<char>) -> Option<Option<Seq<char>>>;

/// The view of an optional string.
pub open spec fn opt_view(s: Option<String>) -> Option<Seq<char>> {
    match s {
        Some(v) => Some(v@),
        None => None,
    }
}

/// The model a body names: the `model` field when the body is a JSON
/// document, else the pattern's capture.
pub open spec fn spec_requested_model(body: Seq<char>) -> Option<Seq<char>> {
    match json_string_field(body, MODEL_KEY@) {
        Some(field) => field,
        None => match regex_group1(MODEL_PATTERN@, body) {
            Some(capture) => capture,
            None => None,
        },
    }
}

/// Parses `body` with `serde_json::from_str` into a `serde_json::Value` and
/// reads its field `key` with `Value::get` and `Value::as_str`. Trusted to
/// give exactly `json_string_field(body, key)`; what that is on a given text
/// is not stated here.
#[verifier::external_body]
fn parse_json_string_field(body: &str, key: &str) -> (res: Option<Option<String>>)
    ensures
        match res {
            None => json_string_field(body@, key@) is None,
            Some(field) => json_string_field(body@, key@) == Some(opt_view(field)),
        },
{
    match serde_json::from_str::<serde_json::Value>(body) {
        Ok(value) => Some(value.get(key).and_then(|v| v.as_str()).map(|m| m.to_string())),
        Err(_) => None,
    }
}

/// Compiles `pattern` with `regex::Regex::new` and reads group 1 of
/// `Regex::captures` on `text`. Trusted to give exactly
/// `regex_group1(pattern, text)`.
#[verifier::external_body]
fn capture_group1(pattern: &str, text: &str) -> (res: Option<Option<String>>)
    ensures
        match res {
            None => regex_group1(pattern@, text@) is None,
            Some(capture) => regex_group1(pattern@, text@) == Some(opt_view(capture)),
        },
{
    match regex::Regex::new(pattern) {
        Ok(re) => Some(re.captures(text).and_then(|caps| caps.get(1)).map(|m| m.as_str().to_string())),
        Err(_) => None,
    }
}

/// Which source names the model: the parsed JSON document when there is one
/// (`json_field` is `Some`), else the pattern (`regex_capture`).
pub fn model_from_sources(json_field: Option<Option<String>>, regex_capture: Option<String>) -> (res:
    Option<String>)
    ensures
        opt_view(res) == match json_field {
            Some(field) => opt_view(field),
            None => opt_view(regex_capture),
        },
{
    match json_field {
        Some(field) => field,
        None => regex_capture,
    }
}

/// The model a request body names.
pub fn requested_model_from_body(body: &str) -> (res: Option<String>)
    ensures
        opt_view(res) == spec_requested_model(body@),
{
    match parse_json_string_field(body, MODEL_KEY) {
        Some(field) => model_from_sources(Some(field), None),
        None => {
            // `MODEL_PATTERN` compiles; were it refused, no model would be found.
            let capture = match capture_group1(MODEL_PATTERN, body) {
                Some(capture) => capture,
                None => None,
            };
            model_from_sources(None, capture)
        },
    }
}

} // verus!
