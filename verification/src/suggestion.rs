//! Parsing of the suggestion source's payload.
//!
//! The source answers with a textual payload that must itself be a
//! one-field JSON structure holding the suggested key under `short_link`.
//! Extra fields are ignored; a missing field, a field of another type or
//! a body that is not JSON is a parse failure, which yields no candidate.

use vstd::prelude::*;

verus! {

/// The string held under `field` at the top level of the JSON document
/// `text`, if `text` is a JSON document with such a field; the exact
/// grammar is serde_json's, and only the trusted parsing call below
/// speaks for it.
pub uninterp spec fn json_string_field(text: Seq<char>, field: Seq<char>) -> Option<Seq<char>>;

/// Relies on `serde_json::from_str`, `Value::get` and `Value::as_str`:
/// what string a JSON document holds under a top-level field depends on
/// the document and the field name alone.
#[verifier::external_body]
fn parse_json_string_field(text: &str, field: &str) -> (r: Option<String>)
    ensures
        match r {
            Some(s) => json_string_field(text@, field@) == Some(s@),
            None => json_string_field(text@, field@) is None,
        },
{
    match serde_json::from_str::<serde_json::Value>(text) {
        Ok(document) => match document.get(field) {
            Some(value) => value.as_str().map(|s| s.to_string()),
            None => None,
        },
        Err(_) => None,
    }
}

/// Extracts the suggested key from the suggestion source's payload:
/// the string under the top-level `short_link` field, or nothing when
/// the payload deviates from that shape.
pub fn extract_suggested_key(payload: &str) -> (r: Option<String>)
    ensures
        match r {
            Some(s) => json_string_field(payload@, "short_link"@) == Some(s@),
            None => json_string_field(payload@, "short_link"@) is None,
        },
{
    parse_json_string_field(payload, "short_link")
}

} // verus!
