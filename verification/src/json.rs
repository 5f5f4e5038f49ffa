use vstd::prelude::*;

verus! {

/// The string that a JSON text holds under `key` at its top level, if the text is valid
/// JSON, is an object, and the value under `key` is a JSON string.
pub uninterp spec fn json_string_field(json: Seq<char>, key: Seq<char>) -> Option<Seq<char>>;

/// Parses `json` with `serde_json::from_str` into a `serde_json::Value`, looks `key` up
/// with `Value::get` and reads the entry with `Value::as_str`. What it returns is named by
/// `json_string_field`: `None` when the text does not parse, is not an object, has no
/// entry under `key`, or the entry is not a string.
#[verifier::external_body]
pub(crate) fn json_string_lookup(json: &str, key: &str) -> (r: Option<String>)
    ensures
        match r {
            Some(s) => json_string_field(json@, key@) == Some(s@),
            None => json_string_field(json@, key@) is None,
        },
{
    match serde_json::from_str::<serde_json::Value>(json) {
        Ok(value) => match value.get(key) {
            Some(entry) => match entry.as_str() {
                Some(s) => Some(s.to_string()),
                None => None,
            },
            None => None,
        },
        Err(_) => None,
    }
}

} // verus!
