//! The JSON literals that the payloads for the host are made of. The
//! escaping of strings is left to `serde_json`; each payload is framed
//! where its record is defined.

use vstd::prelude::*;
use vstd::string::*;

verus! {

/// The JSON string literal, quotes included, that `serde_json` writes for
/// a text.
pub uninterp spec fn json_string_text(s: Seq<char>) -> Seq<char>;

/// The JSON literal of a boolean.
pub open spec fn json_bool_text(b: bool) -> Seq<char> {
    if b {
        "true"@
    } else {
        "false"@
    }
}

/// The JSON text of an optional string: the string literal, or `null`.
pub open spec fn json_optional_text(s: Option<Seq<char>>) -> Seq<char> {
    match s {
        Some(t) => json_string_text(t),
        None => "null"@,
    }
}

/// Builds `serde_json::Value::String` from a copy of `s` and formats it
/// with the value's `Display` impl, which writes compact JSON. Trusted:
/// the text returned is the JSON string literal for `s`, a function of
/// `s` alone.
#[verifier::external_body]
fn quote(s: &str) -> (text: String)
    ensures
        text@ == json_string_text(s@),
{
    serde_json::Value::String(s.to_owned()).to_string()
}

/// The JSON string literal for `s`, with its quotes and escapes.
pub fn json_string(s: &str) -> (text: String)
    ensures
        text@ == json_string_text(s@),
{
    quote(s)
}

/// The JSON literal for `b`.
pub fn json_bool(b: bool) -> (text: &'static str)
    ensures
        text@ == json_bool_text(b),
{
    if b {
        "true"
    } else {
        "false"
    }
}

/// The JSON text for an optional string.
pub fn json_optional(s: Option<&str>) -> (text: String)
    ensures
        text@ == json_optional_text(
            match s {
                Some(t) => Some(t@),
                None => None,
            },
        ),
{
    match s {
        Some(t) => quote(t),
        None => "null".to_string(),
    }
}

} // verus!
