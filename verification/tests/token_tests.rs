use school_auth::codec::{Subject, TokenCliams};
use school_auth::errors::AuthError;
use school_auth::jwt_service::{JwtService, TOKEN_LIFETIME_SECONDS};
use school_auth::users::GetUserDTO;

fn service() -> JwtService {
    JwtService::init("a-test-signing-secret".to_string())
}

fn sample_user_dto() -> GetUserDTO {
    GetUserDTO {
        id: "64f000000000000000000001".to_string(),
        name: "Ada".to_string(),
        email: "ada@example.com".to_string(),
        mobile_number: "5550100".to_string(),
        user_type: "Admin".to_string(),
        is_active: true,
        access_token: None,
        created_at: Some("2023-09-01 10:00:00".to_string()),
        updated_at: None,
    }
}

#[test]
fn round_trip_guest_subject() {
    let jwt = service();
    let now: u64 = 1_700_000_000;
    let token = jwt.GenerateToken(Subject::guest(), now);
    let claims: TokenCliams = jwt.validate_token(&token, now + 1).expect("fresh token verifies");
    assert_eq!(claims.iat, now);
    assert_eq!(claims.exp, now + TOKEN_LIFETIME_SECONDS);
    match claims.user {
        Some(Subject::Guest { name, role }) => {
            assert_eq!(name, "Guest");
            assert_eq!(role, "Guest");
        }
        other => panic!("unexpected subject: {:?}", other),
    }
}

#[test]
fn round_trip_user_subject() {
    let jwt = service();
    let now: u64 = 1_700_000_000;
    let dto = sample_user_dto();
    let token = jwt.GenerateToken(Subject::User(dto.clone()), now);
    let claims = jwt.validate_token(&token, now).expect("fresh token verifies");
    assert_eq!(claims.user, Some(Subject::User(dto)));
}

#[test]
fn round_trip_student_subject() {
    let jwt = service();
    let now: u64 = 42;
    let subject = Subject::Student {
        id: "stu-77".to_string(),
        name: "Grace; with 4:2 separators and a . dot".to_string(),
    };
    let token = jwt.GenerateToken(subject.clone(), now);
    let claims = jwt.validate_token(&token, now).expect("fresh token verifies");
    assert_eq!(claims.user, Some(subject));
}

#[test]
fn round_trip_unicode_subject() {
    let jwt = service();
    let now: u64 = 7;
    let subject = Subject::Guest {
        name: "Gästezugang \u{1F512} каждый".to_string(),
        role: "Rôle".to_string(),
    };
    let token = jwt.GenerateToken(subject.clone(), now);
    let claims = jwt.validate_token(&token, now).expect("fresh token verifies");
    assert_eq!(claims.user, Some(subject));
}

#[test]
fn expiry_boundary() {
    let jwt = service();
    let now: u64 = 1_700_000_000;
    let token = jwt.GenerateToken(Subject::guest(), now);
    let exp = now + TOKEN_LIFETIME_SECONDS;
    assert!(jwt.validate_token(&token, exp - 1).is_ok());
    assert_eq!(jwt.validate_token(&token, exp), Err(AuthError::Expired));
    assert_eq!(jwt.validate_token(&token, exp + 1), Err(AuthError::Expired));
}

#[test]
fn tamper_detection_every_position() {
    let jwt = service();
    let now: u64 = 1_700_000_000;
    let token = jwt.GenerateToken(Subject::guest(), now);
    let chars: Vec<char> = token.chars().collect();
    for i in 0..chars.len() {
        let mut tampered = chars.clone();
        tampered[i] = if tampered[i] == 'X' { 'Y' } else { 'X' };
        let tampered: String = tampered.into_iter().collect();
        let verdict = jwt.validate_token(&tampered, now);
        match verdict {
            Err(AuthError::InvalidSignature) | Err(AuthError::Malformed) => {}
            other => panic!("tampered byte {} slipped through: {:?}", i, other),
        }
    }
}

#[test]
fn wrong_secret_rejected() {
    let jwt = service();
    let other = JwtService::init("another-secret".to_string());
    let now: u64 = 1_700_000_000;
    let token = jwt.GenerateToken(Subject::guest(), now);
    assert_eq!(other.validate_token(&token, now), Err(AuthError::InvalidSignature));
}

#[test]
fn malformed_tokens_rejected() {
    let jwt = service();
    let now: u64 = 1_700_000_000;
    assert_eq!(jwt.validate_token("", now), Err(AuthError::Malformed));
    assert_eq!(jwt.validate_token("garbage", now), Err(AuthError::Malformed));
    assert_eq!(jwt.validate_token("12;34;n", now), Err(AuthError::Malformed));
    assert_eq!(jwt.validate_token("not.a.jwt.at.all", now), Err(AuthError::Malformed));
}
