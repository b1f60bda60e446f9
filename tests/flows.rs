use auth_core::error::AppError;
use auth_core::handlers::{
    check_otp, get_user_detail, register, register_complete, send_email_otp, send_sms_otp, sso,
    sso_with_id, token_subject,
};
use auth_core::helpers::otp_hash_at;
use auth_core::jwt::{AuthClaims, JwtClaim, TOKEN_VALIDITY_SECS};
use auth_core::models::{
    FormCheckResponse, OTPBody, RegisterBodyModel, SSOBodyModel, UserModel, UserResponse,
};
use auth_core::store::IdentityStore;

const T: u64 = 1_700_000_000;
const U1: u128 = 0x0123456789abcdef0123456789abcdef;
const U2: u128 = 0x22;
const U3: u128 = 0x33;

fn reg(id: u128, email: &str, phone: Option<&str>) -> RegisterBodyModel {
    RegisterBodyModel {
        id,
        first_name: "Ada".to_string(),
        last_name: "Lovelace".to_string(),
        email: email.to_string(),
        phone: phone.map(|p| p.to_string()),
        password: Some("pw".to_string()),
    }
}

fn assertion(sub: &str, email: &str) -> SSOBodyModel {
    SSOBodyModel {
        id: sub.to_string(),
        first_name: "Grace".to_string(),
        last_name: "Hopper".to_string(),
        photo: "https://img.example/g.png".to_string(),
        email: email.to_string(),
        sso_provider: "google".to_string(),
    }
}

fn claims_for(id: Option<u128>) -> AuthClaims {
    let data = UserModel {
        id,
        first_name: None,
        last_name: None,
        email: None,
        phone: None,
        password: None,
        sso_provider: None,
        sso_id: None,
        is_active: None,
        is_staff: None,
        is_superuser: None,
        date_joined: None,
        last_login: None,
    };
    AuthClaims(JwtClaim::issued_at(data, T))
}

#[test]
fn conflict_check_reports_email_then_phone() {
    let mut store = IdentityStore::new();
    register(&mut store, &reg(U1, "a@x.com", Some("+1")), T).unwrap();
    let both = store.check_register_field("a@x.com", "+1", U2);
    assert_eq!(both.existing_field.as_deref(), Some("email"));
    let phone = store.check_register_field("b@x.com", "+1", U2);
    assert_eq!(phone.existing_field.as_deref(), Some("phone"));
    let own = store.check_register_field("a@x.com", "+1", U1);
    assert_eq!(own.existing_field, None);
    let none = store.check_register_field("b@x.com", "+2", U2);
    assert_eq!(none.existing_field, None);
}

#[test]
fn second_registration_with_same_email_conflicts() {
    let mut store = IdentityStore::new();
    register(&mut store, &reg(U1, "a@x.com", Some("+1")), T).unwrap();
    let err = register(&mut store, &reg(U2, "a@x.com", Some("+2")), T).unwrap_err();
    assert_eq!(err, AppError::Conflict("Email".to_string()));
    assert_eq!(store.get_user_info(U2).unwrap_err(), AppError::NotFound);
}

#[test]
fn registration_with_same_phone_conflicts() {
    let mut store = IdentityStore::new();
    register(&mut store, &reg(U1, "a@x.com", Some("+1")), T).unwrap();
    let err = register(&mut store, &reg(U2, "b@x.com", Some("+1")), T).unwrap_err();
    assert_eq!(err, AppError::Conflict("Phone".to_string()));
}

#[test]
fn registration_with_taken_id_is_database_error() {
    let mut store = IdentityStore::new();
    register(&mut store, &reg(U1, "a@x.com", None), T).unwrap();
    let err = store.insert_user(&reg(U1, "c@x.com", None), T).unwrap_err();
    assert_eq!(err, AppError::DatabaseError);
}

#[test]
fn registration_answers_pending_identity_with_hashes() {
    let mut store = IdentityStore::new();
    let a = register(&mut store, &reg(U1, "a@x.com", Some("+1")), T).unwrap();
    assert_eq!(a.data.id, Some(U1));
    assert_eq!(a.data.is_active, Some(false));
    assert_eq!(a.data.password, None);
    assert_eq!(a.claim.iat, T);
    assert_eq!(a.claim.exp, T + TOKEN_VALIDITY_SECS);
    let secret = uuid::Uuid::from_u128(U1).to_string();
    assert_eq!(secret, "01234567-89ab-cdef-0123-456789abcdef");
    let expected = otp_hash_at("1234", &secret, T).unwrap();
    assert_eq!(a.sms_hash, expected);
    assert_eq!(a.email_hash, expected);
}

#[test]
fn otp_confirmation_activates_once() {
    let mut store = IdentityStore::new();
    let a = register(&mut store, &reg(U1, "a@x.com", Some("+1")), T).unwrap();
    assert_eq!(store.get_user_info(U1).unwrap().is_active, Some(false));
    let body = OTPBody { otp: "1234".to_string(), user_id: U1, hash_code: a.sms_hash.clone() };
    assert_eq!(check_otp(&mut store, &body, T + 10), Ok(()));
    assert_eq!(store.get_user_info(U1).unwrap().is_active, Some(true));
    let stale = check_otp(&mut store, &body, T + 3600).unwrap_err();
    assert_eq!(stale, AppError::Unauthorized("Invalid OTP Code".to_string()));
    let wrong = OTPBody { otp: "0000".to_string(), user_id: U1, hash_code: a.sms_hash };
    assert!(check_otp(&mut store, &wrong, T).is_err());
}

#[test]
fn register_complete_activates() {
    let mut store = IdentityStore::new();
    register(&mut store, &reg(U1, "a@x.com", None), T).unwrap();
    assert_eq!(register_complete(&mut store, U1, T), Ok(()));
    assert_eq!(store.get_user_info(U1).unwrap().is_active, Some(true));
    assert_eq!(register_complete(&mut store, U3, T), Ok(()));
}

#[test]
fn sso_is_new_once_and_id_stable() {
    let mut store = IdentityStore::new();
    let (s1, a1) = sso_with_id(&mut store, &assertion("sub-1", "g@x.com"), U2, T).unwrap();
    assert_eq!(s1, 201);
    assert_eq!(a1.data.id, Some(U2));
    assert_eq!(a1.data.is_active, Some(true));
    let (s2, a2) = sso_with_id(&mut store, &assertion("sub-1", "g2@x.com"), U3, T + 5).unwrap();
    assert_eq!(s2, 200);
    assert_eq!(a2.data.id, Some(U2));
    assert_eq!(a2.data.email.as_deref(), Some("g2@x.com"));
    let (s3, a3) = sso_with_id(&mut store, &assertion("sub-1", "g2@x.com"), U1, T + 9).unwrap();
    assert_eq!(s3, 200);
    assert_eq!(a3.data.id, Some(U2));
    assert_eq!(store.get_user_info(U3).unwrap_err(), AppError::NotFound);
}

#[test]
fn sso_with_taken_new_id_is_not_found() {
    let mut store = IdentityStore::new();
    register(&mut store, &reg(U1, "a@x.com", None), T).unwrap();
    let err = sso_with_id(&mut store, &assertion("sub-9", "z@x.com"), U1, T).unwrap_err();
    assert_eq!(err, AppError::NotFound);
}

#[test]
fn sso_with_random_id() {
    let mut store = IdentityStore::new();
    let (s1, a1) = sso(&mut store, &assertion("sub-2", "h@x.com"), T).unwrap();
    let (s2, a2) = sso(&mut store, &assertion("sub-2", "h@x.com"), T).unwrap();
    assert_eq!((s1, s2), (201, 200));
    assert_eq!(a1.data.id, a2.data.id);
}

#[test]
fn send_otp_needs_subject() {
    let (code, hash) = send_sms_otp(&claims_for(Some(U1)), T).unwrap();
    assert_eq!(code, "1234");
    let secret = uuid::Uuid::from_u128(U1).to_string();
    assert_eq!(hash, otp_hash_at("1234", &secret, T).unwrap());
    let (_, email_hash) = send_email_otp(&claims_for(Some(U1)), T).unwrap();
    assert_eq!(email_hash, hash);
    assert_eq!(
        send_sms_otp(&claims_for(None), T).unwrap_err(),
        AppError::Unauthorized("Token Data Not Valid".to_string())
    );
    assert_eq!(token_subject(&claims_for(Some(U2))), Ok(U2));
}

#[test]
fn self_lookup_reads_current_record() {
    let mut store = IdentityStore::new();
    register(&mut store, &reg(U1, "a@x.com", None), T).unwrap();
    let stale = claims_for(Some(U1));
    register_complete(&mut store, U1, T + 1).unwrap();
    let a = get_user_detail(&store, &stale, T + 2).unwrap();
    assert_eq!(a.data.is_active, Some(true));
    assert_eq!(a.sms_hash, "");
    assert_eq!(a.claim.iat, T + 2);
    assert_eq!(get_user_detail(&store, &claims_for(Some(U3)), T).unwrap_err(), AppError::NotFound);
    assert!(get_user_detail(&store, &claims_for(None), T).is_err());
}

#[test]
fn profile_update_replaces_fields() {
    let mut store = IdentityStore::new();
    register(&mut store, &reg(U1, "a@x.com", Some("+1")), T).unwrap();
    store.update_user(&reg(U1, "new@x.com", None), T + 1).unwrap();
    let u = store.get_user_info(U1).unwrap();
    assert_eq!(u.email.as_deref(), Some("new@x.com"));
    assert_eq!(u.phone, None);
}

#[test]
fn response_statuses() {
    let created = UserResponse { user_id: Some(1), is_new: Some(true), is_active: Some(true) };
    let existing = UserResponse { user_id: Some(1), is_new: Some(false), is_active: Some(true) };
    assert_eq!(created.status_code(), 201);
    assert_eq!(existing.status_code(), 200);
    assert_eq!(FormCheckResponse { existing_field: None }.status_code(), 200);
    assert_eq!(FormCheckResponse { existing_field: Some(String::new()) }.status_code(), 200);
    assert_eq!(FormCheckResponse { existing_field: Some("email".to_string()) }.status_code(), 409);
}
