//! Application-level handlers that are pure enough to verify: the
//! guest-token endpoint, which bootstraps unauthenticated clients.

use vstd::prelude::*;
use crate::codec::{Subject, SubjectView};
use crate::jwt_service::{JwtService, TOKEN_LIFETIME_SECONDS, spec_token};
use crate::response::ResponseBuilder;

verus! {

/// The guest subject: a fixed anonymous identity.
pub open spec fn spec_guest_subject() -> SubjectView {
    SubjectView::Guest { name: "Guest"@, role: "Guest"@ }
}

/// The guest-token endpoint: issues a token for the fixed guest identity
/// at instant `now` and wraps it in the standard envelope. The route that
/// serves it is exempt from authentication, so unauthenticated clients
/// can always bootstrap a credential here.
pub fn guest_access_token(jwt: &JwtService, now: u64) -> (r: ResponseBuilder<String>)
    requires
        now + TOKEN_LIFETIME_SECONDS <= u64::MAX,
    ensures
        r.status == true,
        r.message@ == "Access token has been generated for Guest User"@,
        r.data matches Some(token) && token@ == spec_token(
            JwtService::spec_claims_for(spec_guest_subject(), now),
            jwt.secret(),
        ),
        r.error matches Some(e) && e@ == ""@,
        r.pagination is None,
{
    let token = jwt.GenerateToken(Subject::guest(), now);
    ResponseBuilder::SuccessResponse(
        "Access token has been generated for Guest User".to_owned(),
        Some(token),
    )
}

} // verus!
