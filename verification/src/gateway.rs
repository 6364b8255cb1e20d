//! The gateway's verified core: assembling the completion request for a new
//! utterance and extracting the generated reply from the service's response.

use vstd::prelude::*;
use crate::error::GatewayError;
use crate::jsonio::json_content_of;
use crate::jsonio::json_error_message;
use crate::jsonio::json_wf;
use crate::jsonio::parse_content;
use crate::render::render_prompt;
use crate::render::spec_rendered_prompt;
use crate::render::spec_turn_views;
use crate::request::build_request_body;
use crate::request::spec_request_body;
use crate::text::lemma_trim_idempotent;
use crate::text::spec_opt_text;
use crate::text::spec_trim;
use crate::text::trim_str;
use crate::turn::Turn;

verus! {

/// The reply before trimming: the `content` field when the response carried
/// one as text, the empty text otherwise.
pub open spec fn spec_content_text(field: Option<Seq<char>>) -> Seq<char> {
    match field {
        Option::Some(s) => s,
        Option::None => Seq::empty(),
    }
}

/// Builds the exact completion-request payload for a new utterance and its
/// conversation history.
pub fn prepare_request(prompt: &str, history: &Vec<Turn>) -> (r: String)
    ensures
        r@ == spec_request_body(spec_rendered_prompt(prompt@, spec_turn_views(history@))),
{
    let full = render_prompt(prompt, history);
    build_request_body(full.as_str())
}

/// Turns the optional `content` field of a response into the final reply:
/// absent or non-text content becomes the empty text, and the reply is
/// trimmed of leading and trailing whitespace.
pub fn finalize_content(field: Option<String>) -> (r: String)
    ensures
        r@ == spec_trim(spec_content_text(spec_opt_text(field))),
{
    match field {
        Option::Some(s) => trim_str(s.as_str()),
        Option::None => {
            proof {
                assert(spec_trim(Seq::<char>::empty()) =~= Seq::<char>::empty());
            }
            String::new()
        }
    }
}

/// Parses the completion service's response body and extracts the reply.
///
/// Parsing succeeds exactly when the body is a valid JSON document; the
/// reply is the document's `content` string — the empty text rather than an
/// error when the field is missing or not text — trimmed of leading and
/// trailing whitespace.
pub fn extract_content(body: &str) -> (r: Result<String, GatewayError>)
    ensures
        r is Ok <==> json_wf(body@),
        (r matches Ok(s) ==> s@ == spec_trim(spec_content_text(json_content_of(body@)))),
        (r matches Ok(s) ==> spec_trim(s@) == s@),
        (r matches Err(e) ==> e is Decode),
{
    match parse_content(body) {
        Result::Err(e) => Result::Err(GatewayError::Decode(json_error_message(&e))),
        Result::Ok(field) => {
            let ghost raw = spec_content_text(spec_opt_text(field));
            let reply = finalize_content(field);
            proof {
                lemma_trim_idempotent(raw);
            }
            Result::Ok(reply)
        }
    }
}

} // verus!
