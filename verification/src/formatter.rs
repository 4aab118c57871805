//! JSON recognition and pretty-printing, done by `serde_json`.
//!
//! What `serde_json` computes is named here (the grammar and the output
//! layout are serde_json's, not this crate's); the functions of this crate
//! are stated over those names.

use vstd::prelude::*;

verus! {

/// Whether `serde_json::from_str::<serde_json::Value>` accepts the text.
pub uninterp spec fn parses_as_json(raw: Seq<char>) -> bool;

/// The text `serde_json::to_string_pretty` writes for the value that
/// `serde_json::from_str` parses from `raw`; `None` when either step fails.
pub uninterp spec fn pretty_json_text(raw: Seq<char>) -> Option<Seq<char>>;

/// The text `serde_json::to_string` writes for the value that
/// `serde_json::from_str` parses from `raw`; `None` when either step fails.
pub uninterp spec fn compact_json_text(raw: Seq<char>) -> Option<Seq<char>>;

/// The JSON string literal `serde_json::to_string` writes for the string
/// `s` (quotes and escapes included); `None` if serialisation fails.
pub uninterp spec fn json_string_text(s: Seq<char>) -> Option<Seq<char>>;

/// When `raw` parses as a JSON object holding member `key`, the text
/// `serde_json::to_string` writes for that member's value; else `None`.
pub uninterp spec fn json_member_text(raw: Seq<char>, key: Seq<char>) -> Option<Seq<char>>;

/// When `raw` parses as a JSON array, the text `serde_json::to_string`
/// writes for each element, in order; else `None`.
pub uninterp spec fn json_array_texts(raw: Seq<char>) -> Option<Seq<Seq<char>>>;

/// `serde_json::from_str::<Value>(raw).is_ok()`.
#[verifier::external_body]
pub(crate) fn json_parses(raw: &str) -> (r: bool)
    ensures
        r == parses_as_json(raw@),
{
    serde_json::from_str::<serde_json::Value>(raw).is_ok()
}

/// `serde_json::from_str::<Value>(raw)` followed by
/// `serde_json::to_string_pretty`. Serialising a parsed `Value` into memory
/// cannot fail in serde_json (object keys are strings and writing to a
/// `Vec` has no I/O error), so the result is present exactly when `raw`
/// parses.
#[verifier::external_body]
pub(crate) fn json_pretty(raw: &str) -> (r: Option<String>)
    ensures
        r is Some <==> parses_as_json(raw@),
        match r {
            Some(s) => pretty_json_text(raw@) == Some(s@),
            None => pretty_json_text(raw@) is None,
        },
{
    serde_json::from_str::<serde_json::Value>(raw).ok().and_then(
        |v| serde_json::to_string_pretty(&v).ok(),
    )
}

/// `serde_json::from_str::<Value>(raw)` followed by `serde_json::to_string`;
/// as for `json_pretty`, the result is present exactly when `raw` parses.
#[verifier::external_body]
pub(crate) fn json_compact(raw: &str) -> (r: Option<String>)
    ensures
        r is Some <==> parses_as_json(raw@),
        match r {
            Some(s) => compact_json_text(raw@) == Some(s@),
            None => compact_json_text(raw@) is None,
        },
{
    serde_json::from_str::<serde_json::Value>(raw).ok().and_then(|v| serde_json::to_string(&v).ok())
}

/// `serde_json::to_string(s)` for a string: its JSON literal. Writing a
/// string into memory cannot fail in serde_json (escaping a `str` into a
/// `Vec<u8>` has no error path), so the default is never taken and the
/// literal is always there.
#[verifier::external_body]
pub(crate) fn json_string_literal(s: &str) -> (r: String)
    ensures
        json_string_text(s@) == Some(r@),
{
    serde_json::to_string(s).unwrap_or_default()
}

/// `serde_json::from_str::<Value>(raw)`, then `Value::get(key)`, then
/// `serde_json::to_string` of the member found.
#[verifier::external_body]
pub(crate) fn json_member(raw: &str, key: &str) -> (r: Option<String>)
    ensures
        match r {
            Some(t) => json_member_text(raw@, key@) == Some(t@),
            None => json_member_text(raw@, key@) is None,
        },
{
    serde_json::from_str::<serde_json::Value>(raw).ok().and_then(
        |v| v.get(key).and_then(|m| serde_json::to_string(m).ok()),
    )
}

/// `serde_json::from_str::<Value>(raw)`, then `Value::as_array`, then
/// `serde_json::to_string` of each element.
#[verifier::external_body]
pub(crate) fn json_array(raw: &str) -> (r: Option<Vec<String>>)
    ensures
        match r {
            Some(items) => json_array_texts(raw@) == Some(items@.map_values(|t: String| t@)),
            None => json_array_texts(raw@) is None,
        },
{
    serde_json::from_str::<serde_json::Value>(raw).ok().and_then(
        |v| v.as_array().and_then(|a| a.iter().map(|e| serde_json::to_string(e).ok()).collect()),
    )
}

/// What `pretty_print` shows for `raw`: serde_json's pretty layout when
/// `raw` is JSON, `raw` itself otherwise.
pub open spec fn pretty_or_raw(raw: Seq<char>) -> Seq<char> {
    match pretty_json_text(raw) {
        Some(p) => p,
        None => raw,
    }
}

/// Pretty-print a JSON string. Returns the original string if parsing fails.
pub fn pretty_print(raw: &str) -> (r: String)
    ensures
        r@ == pretty_or_raw(raw@),
        !parses_as_json(raw@) ==> r@ == raw@,
{
    match json_pretty(raw) {
        Some(p) => p,
        None => raw.to_owned(),
    }
}

/// Returns true if the string appears to be valid JSON.
pub fn is_json(raw: &str) -> (r: bool)
    ensures
        r == parses_as_json(raw@),
{
    json_parses(raw)
}

} // verus!
