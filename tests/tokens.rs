use auth_core::error::AppError;
use auth_core::jwt::{bearer_token, verify_claims, JwtClaim, TOKEN_VALIDITY_SECS};
use auth_core::models::UserModel;

fn user(id: u128) -> UserModel {
    UserModel {
        id: Some(id),
        first_name: Some("Ada".to_string()),
        last_name: Some("L".to_string()),
        email: Some("a@x.com".to_string()),
        phone: None,
        password: None,
        sso_provider: None,
        sso_id: None,
        is_active: Some(true),
        is_staff: None,
        is_superuser: None,
        date_joined: None,
        last_login: None,
    }
}

#[test]
fn validity_window_is_two_hundred_days() {
    assert_eq!(TOKEN_VALIDITY_SECS, 17_280_000);
}

#[test]
fn issue_then_verify_returns_snapshot() {
    let c = JwtClaim::issued_at(user(7), 1000);
    assert_eq!(c.iat, 1000);
    assert_eq!(c.exp - c.iat, TOKEN_VALIDITY_SECS);
    let v = verify_claims(c, 1000 + TOKEN_VALIDITY_SECS - 1).unwrap();
    assert_eq!(v.data.id, Some(7));
    assert_eq!(v.data.email.as_deref(), Some("a@x.com"));
}

#[test]
fn expired_claims_rejected() {
    let c = JwtClaim::issued_at(user(7), 1000);
    let exp = c.exp;
    assert_eq!(
        verify_claims(c, exp).unwrap_err(),
        AppError::Unauthorized("Invalid token".to_string())
    );
}

#[test]
fn new_claims_use_clock() {
    let c = JwtClaim::new(user(1));
    assert!(c.iat > 1_600_000_000);
    assert_eq!(c.exp, c.iat + TOKEN_VALIDITY_SECS);
}

#[test]
fn bearer_header_parsing() {
    assert_eq!(bearer_token(Some("Bearer abc.def")), Ok("abc.def".to_string()));
    assert_eq!(
        bearer_token(None),
        Err(AppError::Unauthorized("Missing authorization header".to_string()))
    );
    assert_eq!(
        bearer_token(Some("Basic xyz")),
        Err(AppError::Unauthorized("Invalid authorization scheme".to_string()))
    );
    assert_eq!(bearer_token(Some("Bearer ")), Ok(String::new()));
}

#[test]
fn error_statuses_and_messages() {
    assert_eq!(AppError::NotFound.status_code(), 404);
    assert_eq!(AppError::ServerError.status_code(), 500);
    assert_eq!(AppError::DatabaseError.status_code(), 422);
    assert_eq!(AppError::Conflict("Email".to_string()).status_code(), 409);
    assert_eq!(AppError::Unauthorized("x".to_string()).status_code(), 401);
    assert_eq!(AppError::FormatError("x".to_string()).status_code(), 422);
    assert_eq!(AppError::ValidationError("x".to_string()).status_code(), 404);
    assert_eq!(AppError::Conflict("Email".to_string()).message(), "Email already exists");
    assert_eq!(AppError::DatabaseError.message(), "Database Error");
    assert_eq!(AppError::NotFound.message(), "Not Fount");
    assert_eq!(AppError::Unauthorized("Invalid OTP Code".to_string()).message(), "Invalid OTP Code");
}
