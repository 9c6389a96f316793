//! JSON text, as `serde_json` writes it.

use vstd::prelude::*;

verus! {

/// The error type of `serde_json`. Nothing here looks inside it.
#[verifier::external_type_specification]
#[verifier::external_body]
pub struct ExJsonError(serde_json::Error);

/// The text that `serde_json` writes for the JSON object with the single
/// member `name`, whose value is the string `value`; `None` where it
/// reports an error instead.
pub uninterp spec fn json_member_text(name: Seq<char>, value: Seq<char>) -> Option<Seq<char>>;

/// Writes the JSON object `{name: value}` with `serde_json::to_string`.
///
/// Taken on trust: that the outcome depends on the two strings alone, so
/// that it can go by the name `json_member_text`. Nothing is claimed of
/// what the text looks like, nor that the call succeeds.
#[verifier::external_body]
pub(crate) fn encode_member(name: &str, value: &str) -> (r: Result<String, serde_json::Error>)
    ensures
        match r {
            Ok(text) => json_member_text(name@, value@) == Some(text@),
            Err(_) => json_member_text(name@, value@) is None,
        },
{
    let mut members = serde_json::Map::new();
    members.insert(name.to_owned(), serde_json::Value::String(value.to_owned()));
    serde_json::to_string(&serde_json::Value::Object(members))
}

} // verus!
