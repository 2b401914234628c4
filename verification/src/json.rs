//! Trusted boundary to the JSON parser.
//!
//! The search mode of the external tool prints one JSON object per line;
//! this module hands single lines to `serde_json` and exposes what the
//! library's logic reads of them — whether the line parses, and the value
//! of a named string field — as plain values.  Both are functions of the
//! line's characters alone, so they are given names that the contracts of
//! the callers speak of exactly.

use vstd::prelude::*;

verus! {

/// Whether the line parses as a single JSON value.
pub uninterp spec fn json_value_line(s: Seq<char>) -> bool;

/// The named top-level string field of the JSON value the line parses to;
/// nothing when the line does not parse, the value is not an object, the
/// field is absent, or the field is not a string.
pub uninterp spec fn json_str_field(s: Seq<char>, key: Seq<char>) -> Option<Seq<char>>;

/// Relies on `serde_json::from_str::<serde_json::Value>`: whether it
/// accepts the line.  Its result depends on the input characters alone.
#[verifier::external_body]
pub(crate) fn line_is_json(line: &str) -> (r: bool)
    ensures
        r == json_value_line(line@),
{
    serde_json::from_str::<serde_json::Value>(line).is_ok()
}

/// Relies on `serde_json::from_str::<serde_json::Value>`,
/// `serde_json::Value::get` and `serde_json::Value::as_str`: parses the
/// line and reads its named string field.  A line that does not parse has
/// no fields; the result depends on the input characters alone.
#[verifier::external_body]
pub(crate) fn json_string_field(line: &str, key: &str) -> (r: Option<String>)
    ensures
        match r {
            Some(f) => json_str_field(line@, key@) == Some(f@),
            None => json_str_field(line@, key@) is None,
        },
        !json_value_line(line@) ==> r is None,
{
    match serde_json::from_str::<serde_json::Value>(line) {
        Ok(v) => match v.get(key) {
            Some(f) => f.as_str().map(|s| s.to_string()),
            None => None,
        },
        Err(_) => None,
    }
}

} // verus!
