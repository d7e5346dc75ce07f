//! The authentication gate: the single choke point every request passes
//! through before any business handler runs.
//!
//! The check is a pure decision: from the request path, the
//! `Authorization` header and the current instant it either forwards the
//! request untouched or rejects it with a 401 and a reason. Only a
//! forward decision ever reaches the downstream handler.

use vstd::prelude::*;
use crate::errors::{AuthError, auth_error_text};
use crate::jwt_service::{JwtService, spec_verify};
use crate::policy::{is_exempt, isStatic};

verus! {

/// The `Authorization` header of a request as the interceptor sees it: absent,
/// present but not readable as text, or its text.
#[derive(Debug, Clone, PartialEq)]
pub enum AuthHeader {
    Missing,
    Unreadable,
    Value(String),
}

/// Mathematical shape of an [`AuthHeader`].
pub ghost enum AuthHeaderView {
    Missing,
    Unreadable,
    Value(Seq<char>),
}

impl View for AuthHeader {
    type V = AuthHeaderView;

    open spec fn view(&self) -> AuthHeaderView {
        match self {
            AuthHeader::Missing => AuthHeaderView::Missing,
            AuthHeader::Unreadable => AuthHeaderView::Unreadable,
            AuthHeader::Value(s) => AuthHeaderView::Value(s@),
        }
    }
}

/// What the interceptor decides for one request.
#[derive(Debug, Clone, Copy, PartialEq, Eq, Structural)]
pub enum GateDecision {
    /// Invoke the downstream handler with the request untouched and
    /// return its response verbatim.
    Forward,
    /// Answer 401 with the reason's text; the downstream handler is
    /// never invoked.
    Reject(AuthError),
}

/// The interceptor's decision as a function of the path, the header,
/// the secret, and the instant of the check.
pub open spec fn spec_gate(
    path: Seq<char>,
    header: AuthHeaderView,
    secret: Seq<char>,
    now: u64,
) -> GateDecision {
    if is_exempt(path) {
        GateDecision::Forward
    } else {
        match header {
            AuthHeaderView::Missing => GateDecision::Reject(AuthError::MissingCredential),
            AuthHeaderView::Unreadable => GateDecision::Reject(AuthError::MalformedCredential),
            AuthHeaderView::Value(token) => match spec_verify(token, secret, now) {
                Ok(_) => GateDecision::Forward,
                Err(e) => GateDecision::Reject(e),
            },
        }
    }
}

/// Factory the host pipeline wraps around each downstream service once
/// at startup; the per-request work lives in the middleware it builds.
pub struct Authentication;

impl Authentication {
    /// Builds the per-request middleware around the token codec.
    pub fn new_transform(&self, jwt: JwtService) -> (m: AuthenticationMiddleware)
        ensures
            m.jwt == jwt,
    {
        AuthenticationMiddleware { jwt }
    }
}

/// The per-request interceptor.
pub struct AuthenticationMiddleware {
    pub jwt: JwtService,
}

impl AuthenticationMiddleware {
    /// Decides one request: exempt paths pass unauthenticated; any other
    /// request passes exactly when it carries a readable `Authorization`
    /// header whose token verifies at `now`.
    pub fn call(&self, path: String, header: &AuthHeader, now: u64) -> (d: GateDecision)
        ensures
            d == spec_gate(path@, header@, self.jwt.secret(), now),
    {
        if !isStatic(path) {
            match header {
                AuthHeader::Missing => GateDecision::Reject(AuthError::MissingCredential),
                AuthHeader::Unreadable => GateDecision::Reject(AuthError::MalformedCredential),
                AuthHeader::Value(token) => match self.jwt.validate_token(token.as_str(), now) {
                    Ok(_) => GateDecision::Forward,
                    Err(e) => GateDecision::Reject(e),
                },
            }
        } else {
            GateDecision::Forward
        }
    }
}

/// Short-circuit: on a protected path with no credential the request is
/// rejected with the missing-credential reason, whose 401 body reads
/// "Token not found"; the downstream handler is never invoked, since
/// only a forward decision reaches it.
pub proof fn lemma_gate_short_circuit(path: Seq<char>, secret: Seq<char>, now: u64)
    requires
        !is_exempt(path),
    ensures
        spec_gate(path, AuthHeaderView::Missing, secret, now) == GateDecision::Reject(
            AuthError::MissingCredential,
        ),
        auth_error_text(AuthError::MissingCredential) == "Token not found"@,
{
}

/// An exempt path passes unauthenticated whatever the header holds.
pub proof fn lemma_gate_exempt_forwards(
    path: Seq<char>,
    header: AuthHeaderView,
    secret: Seq<char>,
    now: u64,
)
    requires
        is_exempt(path),
    ensures
        spec_gate(path, header, secret, now) == GateDecision::Forward,
{
}

} // verus!
