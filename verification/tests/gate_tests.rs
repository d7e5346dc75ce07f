use school_auth::codec::Subject;
use school_auth::errors::AuthError;
use school_auth::jwt_service::{JwtService, TOKEN_LIFETIME_SECONDS};
use school_auth::middleware::{AuthHeader, Authentication, GateDecision};

fn middleware() -> school_auth::middleware::AuthenticationMiddleware {
    Authentication.new_transform(JwtService::init("gate-secret".to_string()))
}

#[test]
fn missing_credential_short_circuits() {
    let gate = middleware();
    let now: u64 = 1_700_000_000;
    let mut downstream_invoked = false;
    let decision = gate.call("/api/app/add-branch".to_string(), &AuthHeader::Missing, now);
    if decision == GateDecision::Forward {
        downstream_invoked = true;
    }
    assert!(!downstream_invoked);
    match decision {
        GateDecision::Reject(reason) => {
            assert_eq!(reason, AuthError::MissingCredential);
            assert_eq!(reason.message(), "Token not found");
        }
        GateDecision::Forward => panic!("request passed without a credential"),
    }
}

#[test]
fn unreadable_credential_rejected() {
    let gate = middleware();
    let decision = gate.call("/api/app/add-branch".to_string(), &AuthHeader::Unreadable, 0);
    assert_eq!(decision, GateDecision::Reject(AuthError::MalformedCredential));
    assert_eq!(AuthError::MalformedCredential.message(), "UnAuthorised Request");
}

#[test]
fn valid_token_forwards() {
    let gate = middleware();
    let now: u64 = 1_700_000_000;
    let token = gate.jwt.GenerateToken(Subject::guest(), now);
    let decision = gate.call(
        "/api/app/add-branch".to_string(),
        &AuthHeader::Value(token),
        now + 10,
    );
    assert_eq!(decision, GateDecision::Forward);
}

#[test]
fn expired_token_rejected_with_reason() {
    let gate = middleware();
    let now: u64 = 1_700_000_000;
    let token = gate.jwt.GenerateToken(Subject::guest(), now);
    let decision = gate.call(
        "/api/app/add-branch".to_string(),
        &AuthHeader::Value(token),
        now + TOKEN_LIFETIME_SECONDS,
    );
    assert_eq!(decision, GateDecision::Reject(AuthError::Expired));
    assert_eq!(AuthError::Expired.message(), "ExpiredSignature");
}

#[test]
fn forged_token_rejected_with_reason() {
    let gate = middleware();
    let other = JwtService::init("attacker-secret".to_string());
    let now: u64 = 1_700_000_000;
    let token = other.GenerateToken(Subject::guest(), now);
    let decision = gate.call(
        "/api/app/add-branch".to_string(),
        &AuthHeader::Value(token),
        now,
    );
    assert_eq!(decision, GateDecision::Reject(AuthError::InvalidSignature));
}

#[test]
fn exempt_path_passes_without_credential() {
    let gate = middleware();
    let decision = gate.call("/api/app/guest-access".to_string(), &AuthHeader::Missing, 0);
    assert_eq!(decision, GateDecision::Forward);
}
