//! The response side of the client: mapping an HTTP status code and body
//! text to a typed result.
//!
//! On status 200 the body is parsed as JSON and decoded into the endpoint's
//! response type; a parse failure or a shape mismatch surfaces as the
//! JSON-decode error kind.  Status 401 is an authentication failure, 429 a
//! rate limit, 404 (where an endpoint addresses a single resource) a
//! not-found error naming the requested identifier, and any other status a
//! generic API failure carrying the raw status code.
use vstd::prelude::*;

use crate::json::{json_of, JsonNode};
use crate::strutil::{dec_rep, u64_to_string};
use crate::PexelsError;
use vstd::string::StringExecFns;

verus! {

/// The error an HTTP error status maps to: 401 is an authentication
/// failure, 429 a rate limit, and anything else a generic API failure whose
/// message names the operation and carries the status code.
pub open spec fn error_status_spec(status: u16, ctx: Seq<char>, e: PexelsError) -> bool {
    if status == 401 {
        e matches PexelsError::AuthError(m) && m@ == "Invalid API key"@
    } else if status == 429 {
        e == PexelsError::RateLimitError
    } else {
        e matches PexelsError::ApiError(m) && m@ == ctx + " failed with status: "@ + dec_rep(
            status as nat,
        )
    }
}

/// Maps an HTTP error status to its error, for the operation named by
/// `ctx`.
pub fn error_for_status(status: u16, ctx: &str) -> (e: PexelsError)
    ensures
        error_status_spec(status, ctx@, e),
{
    if status == 401 {
        PexelsError::AuthError(String::from_str("Invalid API key"))
    } else if status == 429 {
        PexelsError::RateLimitError
    } else {
        let mut m = String::from_str(ctx);
        m.append(" failed with status: ");
        let d = u64_to_string(status as u64);
        m.append(d.as_str());
        PexelsError::ApiError(m)
    }
}

/// What decoding the body of a 200 response yields: the parser's error as a
/// JSON-decode failure, a shape mismatch as a JSON-decode failure with a
/// fixed message, and otherwise the decoded value.
pub open spec fn decode_200_spec<T>(
    body: Seq<char>,
    ok: spec_fn(JsonNode) -> bool,
    m: spec_fn(JsonNode, T) -> bool,
    r: Result<T, PexelsError>,
) -> bool {
    match json_of(body) {
        Err(msg) => r matches Err(PexelsError::JsonParseError(mm)) && mm@ == msg@,
        Ok(node) => if ok(node) {
            r matches Ok(v) && m(node, v)
        } else {
            r matches Err(PexelsError::JsonParseError(mm)) && mm@
                == "response body does not match the expected shape"@
        },
    }
}

} // verus!
