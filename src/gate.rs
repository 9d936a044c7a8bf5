//! The authentication gate: which requests go on to verification, and what
//! the outcome of verification means for the request.
use vstd::prelude::*;
use actix_web_httpauth::headers::authorization::Scheme;
use crate::token::VerifyError;

verus! {

/// The scheme prefix of a bearer `Authorization` header.
pub open spec fn bearer_prefix() -> Seq<char> {
    seq!['B', 'e', 'a', 'r', 'e', 'r', ' ']
}

/// A character that may stand in a header value read as text: a tab or a
/// visible ASCII character.
pub open spec fn header_text_char(c: char) -> bool {
    c == '\t' || (' ' <= c && c <= '~')
}

/// An `Authorization` value from which a bearer token can be taken.
pub open spec fn well_formed_bearer(h: Seq<char>) -> bool {
    &&& h.len() >= 8
    &&& forall|i: int| 0 <= i < h.len() ==> header_text_char(#[trigger] h[i])
    &&& h.subrange(0, 7) == bearer_prefix()
}

/// Relies on actix_web_httpauth's `Bearer::parse` (after
/// `HeaderValue::from_str`): a value of at least 8 visible ASCII characters
/// that starts with `Bearer ` yields the rest of the value as the token.
#[verifier::external_body]
fn parse_bearer(header: &str) -> (r: Option<String>)
    ensures
        r is Some <==> well_formed_bearer(header@),
        r matches Some(t) ==> header@ == bearer_prefix() + t@,
{
    let value = actix_web::http::HeaderValue::from_str(header).ok()?;
    actix_web_httpauth::headers::authorization::Bearer::parse(&value).ok().map(
        |b| b.token().to_string(),
    )
}

/// How an inbound request is handled before any key is fetched.
#[derive(Debug, Clone, PartialEq, Eq)]
pub enum GateStep {
    /// Reject at once with `401`; nothing is fetched.
    Reject,
    /// Fetch the key set and verify this token.
    Verify(String),
}

/// Whether a request is let through to the backend.
#[derive(Debug, Clone, Copy, PartialEq, Eq, Structural)]
pub enum GateDecision {
    Admit,
    Reject,
}

/// HTTP status of a rejected request.
pub const UNAUTHORIZED: u16 = 401;

/// Takes the bearer token out of the `Authorization` header, if any. A missing
/// or malformed header is rejected without asking for a verification, so no
/// key set is fetched for it.
pub fn extract_bearer(authorization: Option<&str>) -> (r: GateStep)
    ensures
        match authorization {
            None => r == GateStep::Reject,
            Some(h) => {
                &&& (r is Verify <==> well_formed_bearer(h@))
                &&& (r matches GateStep::Verify(t) ==> h@ == bearer_prefix() + t@)
            },
        },
{
    match authorization {
        None => GateStep::Reject,
        Some(h) => match parse_bearer(h) {
            Some(t) => GateStep::Verify(t),
            None => GateStep::Reject,
        },
    }
}

/// Turns the verifier's outcome into an admission decision: the request passes
/// unmodified exactly when the token verified; every error, whichever check
/// raised it, is the same rejection.
pub fn validator(outcome: Result<(), VerifyError>) -> (r: GateDecision)
    ensures
        r == GateDecision::Admit <==> outcome is Ok,
        r == GateDecision::Reject <==> outcome is Err,
{
    match outcome {
        Ok(()) => GateDecision::Admit,
        Err(_) => GateDecision::Reject,
    }
}

impl GateDecision {
    /// The status with which a rejected request is answered, `None` for one
    /// that passes on to the backend.
    pub fn reject_status(&self) -> (r: Option<u16>)
        ensures
            *self == GateDecision::Admit ==> r is None,
            *self == GateDecision::Reject ==> r == Some(UNAUTHORIZED),
    {
        match self {
            GateDecision::Admit => None,
            GateDecision::Reject => Some(UNAUTHORIZED),
        }
    }
}

} // verus!
