use vstd::prelude::*;

verus! {

/// Whether serde_json accepts the text as a single JSON value.
pub uninterp spec fn json_text_wf(s: Seq<char>) -> bool;

/// The string under the given key when serde_json parses the text as a JSON
/// object holding a string there; None when the key is absent, its value is
/// not a string, or the parsed value is no object at all.
pub uninterp spec fn string_field_of(s: Seq<char>, key: Seq<char>) -> Option<Seq<char>>;

/// How serde_json describes its failure to parse the text.
pub uninterp spec fn parse_err_text_of(s: Seq<char>) -> Seq<char>;

/// Relies on serde_json::from_str, Value::get, Value::as_str and the Display
/// rendering of serde_json::Error: the text is parsed as one JSON value,
/// which succeeds exactly on text serde_json accepts, and the string under
/// the key is looked up; every step depends on the text and the key alone.
#[verifier::external_body]
pub(crate) fn extract_string_field(s: &str, key: &str) -> (r: Result<Option<String>, String>)
    ensures
        r is Ok <==> json_text_wf(s@),
        (r matches Ok(f) ==> f.deep_view() == string_field_of(s@, key@)),
        (r matches Err(m) ==> m@ == parse_err_text_of(s@)),
{
    match serde_json::from_str::<serde_json::Value>(s) {
        Ok(v) => Ok(v.get(key).and_then(|f| f.as_str()).map(|c| c.to_owned())),
        Err(e) => Err(e.to_string()),
    }
}

} // verus!
