use school_auth::app_service::guest_access_token;
use school_auth::codec::Subject;
use school_auth::errors::AppError;
use school_auth::jwt_service::JwtService;
use school_auth::policy::isStatic;
use school_auth::users::{LoginRequestDTO, UserTypes, Users, login};

fn service() -> JwtService {
    JwtService::init("flow-secret".to_string())
}

fn stored_user(password_hash: String) -> Users {
    Users {
        id: Some("64f000000000000000000002".to_string()),
        name: "Ada".to_string(),
        email: "ada@example.com".to_string(),
        mobile_number: "5550100".to_string(),
        password: password_hash,
        user_type: UserTypes::ADMIN,
        is_active: true,
        created_at: Some("2023-09-01 10:00:00".to_string()),
        updated_at: Some("2023-09-02 10:00:00".to_string()),
    }
}

#[test]
fn guest_flow_issues_verifiable_token() {
    // The guest endpoint's route bypasses authentication ...
    assert!(isStatic("/api/app/guest-access".to_string()));
    // ... and the token it returns verifies back to the guest subject.
    let jwt = service();
    let now: u64 = 1_700_000_000;
    let envelope = guest_access_token(&jwt, now);
    assert!(envelope.status);
    assert_eq!(envelope.message, "Access token has been generated for Guest User");
    let token = envelope.data.expect("the envelope carries the token");
    let claims = jwt.validate_token(&token, now).expect("guest token verifies");
    assert_eq!(
        claims.user,
        Some(Subject::Guest { name: "Guest".to_string(), role: "Guest".to_string() })
    );
}

#[test]
fn login_with_valid_credentials_returns_token() {
    let jwt = service();
    let now: u64 = 1_700_000_000;
    let hash = bcrypt::hash("correct horse", 4).expect("hashing succeeds");
    let user = stored_user(hash);
    let request = LoginRequestDTO {
        email: "ada@example.com".to_string(),
        password: "correct horse".to_string(),
    };
    let response = login(&request, Ok(user), &jwt, now);
    assert_eq!(response.status, 200);
    assert!(response.body.status);
    assert_eq!(response.body.message, "Data fetch successfully !");
    let dto = response.body.data.expect("the body carries the user");
    assert_eq!(dto.email, "ada@example.com");
    assert_eq!(dto.user_type, "Admin");
    let token = dto.access_token.clone().expect("a token is embedded");
    let claims = jwt.validate_token(&token, now).expect("login token verifies");
    let mut expected = dto;
    expected.access_token = None;
    assert_eq!(claims.user, Some(Subject::User(expected)));
}

#[test]
fn login_with_wrong_password_issues_no_token() {
    let jwt = service();
    let hash = bcrypt::hash("correct horse", 4).expect("hashing succeeds");
    let user = stored_user(hash);
    let request = LoginRequestDTO {
        email: "ada@example.com".to_string(),
        password: "battery staple".to_string(),
    };
    let response = login(&request, Ok(user), &jwt, 1_700_000_000);
    assert_eq!(response.status, 400);
    assert!(!response.body.status);
    assert_eq!(response.body.error.as_deref(), Some("password not matched"));
    assert!(response.body.data.is_none());
}

#[test]
fn login_with_invalid_email_rejected() {
    let jwt = service();
    let request = LoginRequestDTO {
        email: "not-an-email".to_string(),
        password: "whatever".to_string(),
    };
    let response = login(&request, Err(AppError::UserNotFoundError), &jwt, 0);
    assert_eq!(response.status, 400);
    assert_eq!(response.body.error.as_deref(), Some("Invalid request params"));
}

#[test]
fn login_with_empty_password_rejected() {
    let jwt = service();
    let request = LoginRequestDTO {
        email: "ada@example.com".to_string(),
        password: String::new(),
    };
    let response = login(&request, Err(AppError::UserNotFoundError), &jwt, 0);
    assert_eq!(response.status, 400);
    assert_eq!(response.body.error.as_deref(), Some("Invalid request params"));
}

#[test]
fn login_with_unknown_account_reports_lookup_error() {
    let jwt = service();
    let request = LoginRequestDTO {
        email: "ada@example.com".to_string(),
        password: "correct horse".to_string(),
    };
    let response = login(&request, Err(AppError::UserNotFoundError), &jwt, 0);
    assert_eq!(response.status, 400);
    assert_eq!(response.body.error.as_deref(), Some("User not found"));
    assert!(response.body.data.is_none());
}
