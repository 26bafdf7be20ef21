//! Trusted declarations over the JSON lines the retrieval tool prints.
//!
//! What a JSON line yields — whether it parses, and what a given key holds
//! — is a function of the line's text alone, so each reading gets a name,
//! and one wrapper per reading applies it.  The verified parsing logic in
//! `search` then states its results over these names exactly.

use vstd::prelude::*;

verus! {

/// Whether this text parses as one JSON document.
pub uninterp spec fn json_line_ok(line: Seq<char>) -> bool;

/// The string content under this key of a JSON-object line, when the line
/// parses and holds one.
pub uninterp spec fn json_str_field(line: Seq<char>, key: Seq<char>) -> Option<Seq<char>>;

/// The non-negative integral content under this key of a JSON-object line,
/// when the line parses and holds one.
pub uninterp spec fn json_u64_field(line: Seq<char>, key: Seq<char>) -> Option<u64>;

/// The numeric content under this key of a JSON-object line read as whole
/// seconds, when the line parses and holds one.
pub uninterp spec fn json_secs_field(line: Seq<char>, key: Seq<char>) -> Option<u64>;

/// Relies on `serde_json::from_str::<Value>`: whether the text parses as
/// one JSON document.
#[verifier::external_body]
pub(crate) fn json_line_parses(line: &str) -> (r: bool)
    ensures
        r == json_line_ok(line@),
{
    serde_json::from_str::<serde_json::Value>(line).is_ok()
}

/// Relies on `serde_json::from_str::<Value>`, `Value::get` and
/// `Value::as_str`: the string under this key, when the line parses to an
/// object holding one.
#[verifier::external_body]
pub(crate) fn get_json_str_field(line: &str, key: &str) -> (r: Option<String>)
    ensures
        match (r, json_str_field(line@, key@)) {
            (Some(s), Some(t)) => s@ == t,
            (None, None) => true,
            _ => false,
        },
{
    serde_json::from_str::<serde_json::Value>(line)
        .ok()
        .and_then(|v| v.get(key).and_then(|f| f.as_str()).map(|s| s.to_owned()))
}

/// Relies on `serde_json::from_str::<Value>`, `Value::get` and
/// `Value::as_u64`: the non-negative integer under this key, when the line
/// parses to an object holding one.
#[verifier::external_body]
pub(crate) fn get_json_u64_field(line: &str, key: &str) -> (r: Option<u64>)
    ensures
        r == json_u64_field(line@, key@),
{
    serde_json::from_str::<serde_json::Value>(line)
        .ok()
        .and_then(|v| v.get(key).and_then(|f| f.as_u64()))
}

/// Relies on `serde_json::from_str::<Value>`, `Value::get` and
/// `Value::as_f64`: the number under this key read as whole seconds —
/// fraction truncated, clamped at the integer range's ends — when the line
/// parses to an object holding one.
#[verifier::external_body]
pub(crate) fn get_json_secs_field(line: &str, key: &str) -> (r: Option<u64>)
    ensures
        r == json_secs_field(line@, key@),
{
    serde_json::from_str::<serde_json::Value>(line)
        .ok()
        .and_then(|v| v.get(key).and_then(|f| f.as_f64()).map(|secs| secs as u64))
}

} // verus!
