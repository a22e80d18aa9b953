//! The auth-verification component: extracting the bearer token from
//! the `Authorization` header, and interpreting the identity service's
//! reply. The HTTP exchange with the identity service itself is outside
//! this library; the unverified server performs it only after token
//! extraction succeeds, and hands the reply back in an `IdentityReply`.

use vstd::prelude::*;
use vstd::string::StringExecFns;
use crate::model::{
    opt_bytes_view, ErrorResponse, ErrorResponseView, Response, ResponseBody, ResponseBodyView,
    ResponseView, Uid, UserResponse,
};

verus! {

/// What the identity service answered when presented with a token.
#[derive(Debug)]
pub enum IdentityReply {
    /// A success status, with the body decoded into an identity record.
    Success(UserResponse),
    /// A non-success status, with the body decoded into a structured
    /// error whose `detail` field is a human-readable message.
    Rejected { detail: String },
    /// A transport-level failure: connection refused, timeout, or a
    /// body that could not be decoded.
    Unavailable,
}

/// Mathematical image of an identity-service reply.
pub enum IdentityReplyView {
    Success(Uid),
    Rejected(Seq<char>),
    Unavailable,
}

impl View for IdentityReply {
    type V = IdentityReplyView;

    open spec fn view(&self) -> IdentityReplyView {
        match self {
            IdentityReply::Success(u) => IdentityReplyView::Success(u.id),
            IdentityReply::Rejected { detail } => IdentityReplyView::Rejected(detail@),
            IdentityReply::Unavailable => IdentityReplyView::Unavailable,
        }
    }
}

/// A byte that a header value may hold while still being readable as a
/// string: horizontal tab or printable ASCII.
pub open spec fn readable_header_byte(b: u8) -> bool {
    b == 9 || (32 <= b && b <= 126)
}

/// A header value that is representable as a string.
pub open spec fn readable_header(bytes: Seq<u8>) -> bool {
    forall|i: int| 0 <= i < bytes.len() ==> readable_header_byte(#[trigger] bytes[i])
}

/// The opaque bearer token of a request: the `Authorization` header
/// value, when present and readable as a string.
pub open spec fn token_of(authorization: Option<Seq<u8>>) -> Option<Seq<u8>> {
    match authorization {
        Some(bytes) => if readable_header(bytes) {
            Some(bytes)
        } else {
            None
        },
        None => None,
    }
}

/// The 400 response for a missing or unreadable `Authorization` header.
pub open spec fn missing_token_response() -> ResponseView {
    ResponseView {
        status: 400,
        body: ResponseBodyView::Error(
            ErrorResponseView {
                message: "Failed to parse Authorization header"@,
                status: "400"@,
            },
        ),
    }
}

/// The response for an identity-service rejection: HTTP 500, with the
/// upstream-provided detail as the body's message. The body's `status`
/// field reads "400" while the HTTP status is 500; both are kept as the
/// service answers today — whether a rejection ought to map to 401/403
/// instead is an open design question, not silently settled here.
pub open spec fn rejected_response(detail: Seq<char>) -> ResponseView {
    ResponseView {
        status: 500,
        body: ResponseBodyView::Error(ErrorResponseView { message: detail, status: "400"@ }),
    }
}

/// The 502 response for a transport-level failure reaching the identity
/// service: reported to the caller rather than aborting the request.
pub open spec fn unavailable_response() -> ResponseView {
    ResponseView {
        status: 502,
        body: ResponseBodyView::Error(
            ErrorResponseView { message: "Identity service unavailable"@, status: "502"@ },
        ),
    }
}

/// The verified identity or failure response that an identity-service
/// reply determines, once a token was extracted.
pub open spec fn reply_outcome(reply: IdentityReplyView) -> Result<Uid, ResponseView> {
    match reply {
        IdentityReplyView::Success(id) => Ok(id),
        IdentityReplyView::Rejected(detail) => Err(rejected_response(detail)),
        IdentityReplyView::Unavailable => Err(unavailable_response()),
    }
}

/// The decision of the auth-verification component: the identity the
/// caller acts as, or the failure response that short-circuits the
/// request before any data access.
pub open spec fn auth_outcome(
    authorization: Option<Seq<u8>>,
    reply: IdentityReplyView,
) -> Result<Uid, ResponseView> {
    if token_of(authorization) is None {
        Err(missing_token_response())
    } else {
        reply_outcome(reply)
    }
}

/// The image of an identity-or-response result.
pub open spec fn outcome_view(r: Result<UserResponse, Response>) -> Result<Uid, ResponseView> {
    match r {
        Ok(u) => Ok(u.id),
        Err(resp) => Err(resp@),
    }
}

/// Builds the 400 response for a missing or unreadable header.
pub fn missing_token_response_exec() -> (r: Response)
    ensures
        r@ == missing_token_response(),
{
    Response {
        status: 400,
        body: ResponseBody::Error(
            ErrorResponse {
                message: String::from_str("Failed to parse Authorization header"),
                status: String::from_str("400"),
            },
        ),
    }
}

/// Extracts the bearer token from the `Authorization` header value, or
/// the 400 response when the header is absent or not representable as a
/// string. When this fails, neither the identity service nor the store
/// is consulted.
pub fn extract_token(authorization: Option<Vec<u8>>) -> (r: Result<Vec<u8>, Response>)
    ensures
        match r {
            Ok(token) => token_of(opt_bytes_view(authorization)) == Some(token@),
            Err(resp) => {
                &&& token_of(opt_bytes_view(authorization)) is None
                &&& resp@ == missing_token_response()
            },
        },
{
    let bytes = match authorization {
        None => {
            return Err(missing_token_response_exec());
        },
        Some(bytes) => bytes,
    };
    if readable_header_exec(&bytes) {
        Ok(bytes)
    } else {
        Err(missing_token_response_exec())
    }
}

/// Whether every byte of the header value is readable as a string.
fn readable_header_exec(bytes: &Vec<u8>) -> (r: bool)
    ensures
        r == readable_header(bytes@),
{
    let mut i: usize = 0;
    while i < bytes.len()
        invariant
            i <= bytes.len(),
            forall|j: int| 0 <= j < i ==> readable_header_byte(#[trigger] bytes@[j]),
        decreases bytes.len() - i,
    {
        let b = bytes[i];
        if !(b == 9 || (32 <= b && b <= 126)) {
            proof {
                assert(!readable_header_byte(bytes@[i as int]));
            }
            return false;
        }
        i += 1;
    }
    true
}

/// Interprets the identity service's reply: a success yields the
/// verified identity; a rejection yields the failure response carrying
/// the upstream-provided detail; a transport failure yields the 502.
pub fn resolve_identity(reply: IdentityReply) -> (r: Result<UserResponse, Response>)
    ensures
        outcome_view(r) == reply_outcome(reply@),
{
    match reply {
        IdentityReply::Success(u) => Ok(u),
        IdentityReply::Rejected { detail } => Err(
            Response {
                status: 500,
                body: ResponseBody::Error(
                    ErrorResponse { message: detail, status: String::from_str("400") },
                ),
            },
        ),
        IdentityReply::Unavailable => Err(
            Response {
                status: 502,
                body: ResponseBody::Error(
                    ErrorResponse {
                        message: String::from_str("Identity service unavailable"),
                        status: String::from_str("502"),
                    },
                ),
            },
        ),
    }
}

/// The auth-verification step of every authenticated endpoint: extract
/// the bearer token, then interpret what the identity service answered
/// for it. `reply` is the reply the service gave when presented with
/// the extracted token; it is not consulted — and the unverified server
/// never makes the call — when extraction already failed.
pub fn verify_and_get_user(
    authorization: Option<Vec<u8>>,
    reply: IdentityReply,
) -> (r: Result<UserResponse, Response>)
    ensures
        outcome_view(r) == auth_outcome(opt_bytes_view(authorization), reply@),
{
    match extract_token(authorization) {
        Err(resp) => Err(resp),
        Ok(_token) => resolve_identity(reply),
    }
}

} // verus!
