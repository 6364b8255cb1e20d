//! The trusted boundary to the `serde_json` crate: parsing a response body
//! and reading its `content` field.

use vstd::prelude::*;
use crate::text::spec_opt_text;

verus! {

#[verifier::external_type_specification]
#[verifier::external_body]
pub struct ExError(serde_json::Error);

/// Whether `serde_json` accepts the text as a JSON document: the outcome of
/// parsing is determined by the input text alone.
pub uninterp spec fn json_wf(s: Seq<char>) -> bool;

/// The `content` field of the JSON document in the text, when the document
/// is an object holding one as a string; determined by the text alone.
pub uninterp spec fn json_content_of(s: Seq<char>) -> Option<Seq<char>>;

/// Relies on `serde_json::from_str::<Value>`, `Value::get` and
/// `Value::as_str`: parsing succeeds exactly when the input text is a valid
/// JSON document, and the extracted field is the document's `content` string
/// when it has one — both outcomes functions of the input text alone.
#[verifier::external_body]
pub(crate) fn parse_content(s: &str) -> (r: Result<Option<String>, serde_json::Error>)
    ensures
        r is Ok <==> json_wf(s@),
        (r matches Ok(f) ==> spec_opt_text(f) == json_content_of(s@)),
{
    match serde_json::from_str::<serde_json::Value>(s) {
        Err(e) => Err(e),
        Ok(v) => match v.get("content") {
            None => Ok(None),
            Some(f) => match f.as_str() {
                None => Ok(None),
                Some(t) => Ok(Some(t.to_owned())),
            },
        },
    }
}

/// Relies on the `Display` implementation of `serde_json::Error`, through
/// `ToString::to_string`: renders a parse error as text.
#[verifier::external_body]
pub(crate) fn json_error_message(e: &serde_json::Error) -> String {
    e.to_string()
}

} // verus!
