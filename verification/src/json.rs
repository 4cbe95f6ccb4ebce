//! Trusted access to serde_json, used to decode the argument blob a tool
//! call carries. Parsing is the one piece of outside code the run
//! coordinator's decisions rest on, so its results are given names here and
//! everything downstream is verified against those names.

use vstd::prelude::*;

use crate::store::opt_str_view;

verus! {

/// The string value at `key` where `s` parses as JSON whose top level is an
/// object holding a string there; `None` for anything else.
pub uninterp spec fn spec_json_field_str(s: Seq<char>, key: Seq<char>) -> Option<Seq<char>>;

/// Whether `s` parses as a JSON document.
pub uninterp spec fn spec_json_valid(s: Seq<char>) -> bool;

/// Relies on serde_json::from_str::<Value>, Value::get and Value::as_str:
/// parsing a given text always yields the same value, `get` is `None` on a
/// non-object or missing key, and `as_str` is `None` on a non-string.
#[verifier::external_body]
pub(crate) fn json_field_str(s: &str, key: &str) -> (r: Option<String>)
    ensures
        opt_str_view(r) == spec_json_field_str(s@, key@),
{
    match serde_json::from_str::<serde_json::Value>(s) {
        Ok(v) => match v.get(key) {
            Some(f) => f.as_str().map(|t| t.to_string()),
            None => None,
        },
        Err(_) => None,
    }
}

/// Relies on serde_json::from_str::<Value>: whether a given text is
/// well-formed JSON is a pure function of the text.
#[verifier::external_body]
pub(crate) fn json_is_valid(s: &str) -> (r: bool)
    ensures
        r == spec_json_valid(s@),
{
    serde_json::from_str::<serde_json::Value>(s).is_ok()
}

} // verus!
