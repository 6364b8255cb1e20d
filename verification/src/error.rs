//! The gateway's error taxonomy and its rendering to displayable text.

use vstd::prelude::*;
use vstd::string::StringExecFns;

verus! {

/// Why a completion attempt failed: the request never completed
/// (`Transport`), or the response body was not valid JSON (`Decode`).
#[derive(Debug)]
pub enum GatewayError {
    Transport(String),
    Decode(String),
}

/// The displayable text of a gateway error: a fixed prefix naming the
/// failure, then the underlying detail.
pub open spec fn spec_error_message(e: GatewayError) -> Seq<char> {
    match e {
        GatewayError::Transport(m) => "HTTP error: "@ + m@,
        GatewayError::Decode(m) => "JSON parse error: "@ + m@,
    }
}

impl GatewayError {
    /// Converts the error to the opaque displayable string handed to callers.
    pub fn message(&self) -> (r: String)
        ensures
            r@ == spec_error_message(*self),
    {
        match self {
            GatewayError::Transport(m) => {
                let mut out: String = String::new();
                out.append("HTTP error: ");
                out.append(m.as_str());
                out
            }
            GatewayError::Decode(m) => {
                let mut out: String = String::new();
                out.append("JSON parse error: ");
                out.append(m.as_str());
                out
            }
        }
    }
}

} // verus!
