use auth_core::helpers::{
    generate_otp_and_hash, generate_otp_and_hash_at, now_secs, otp_hash_at, starts_with,
    validate_profile_url, verify_otp, verify_otp_at, DEV_OTP_CODE, MAX_OTP_SECS,
};
use auth_core::AppError;

const T: u64 = 1_700_000_000;

#[test]
fn otp_hash_is_sha256_of_code_hour_and_secret() {
    let h = otp_hash_at("1234", "U1", T).unwrap();
    assert_eq!(
        h,
        "8d417fe62642daa1901bf0e0f6480725e604ff0e671ed0d17741702e4ee8fbff"
    );
}

#[test]
fn otp_hash_same_within_hour() {
    // 1_700_000_000 is 22:13:20 UTC; the hour runs from 1_699_999_200.
    let a = otp_hash_at("1234", "U1", 1_699_999_200).unwrap();
    let b = otp_hash_at("1234", "U1", 1_700_002_799).unwrap();
    let c = otp_hash_at("1234", "U1", 1_700_002_800).unwrap();
    assert_eq!(a, b);
    assert_ne!(a, c);
}

#[test]
fn otp_verifies_within_bucket_only() {
    let (code, hash) = generate_otp_and_hash_at("U1", T).unwrap();
    assert_eq!(code, DEV_OTP_CODE);
    assert!(verify_otp_at(&code, &hash, "U1", T));
    assert!(verify_otp_at(&code, &hash, "U1", T + 60));
    assert!(!verify_otp_at("9999", &hash, "U1", T));
    assert!(!verify_otp_at(&code, &hash, "U2", T));
    assert!(!verify_otp_at(&code, &hash, "U1", T + 3600));
}

#[test]
fn otp_secret_binding() {
    let (code, hash) = generate_otp_and_hash_at("U1", T).unwrap();
    assert!(verify_otp_at(&code, &hash, "U1", T));
    assert!(!verify_otp_at(&code, &hash, "U2", T));
}

#[test]
fn otp_with_clock_round_trip() {
    let (code, hash) = generate_otp_and_hash("U1").unwrap();
    assert!(verify_otp(&code, &hash, "U1"));
    assert!(!verify_otp(&code, &hash, "U2"));
}

#[test]
fn otp_past_last_stamped_instant() {
    assert!(otp_hash_at("1234", "U1", MAX_OTP_SECS).is_some());
    assert!(otp_hash_at("1234", "U1", MAX_OTP_SECS + 1).is_none());
    assert!(generate_otp_and_hash_at("U1", MAX_OTP_SECS + 1).is_none());
    assert!(!verify_otp_at("1234", "", "U1", MAX_OTP_SECS + 1));
}

#[test]
fn clock_reads_present() {
    assert!(now_secs() > 1_600_000_000);
}

#[test]
fn prefix_check() {
    assert!(starts_with("https://a", "https://"));
    assert!(!starts_with("http://a", "https://"));
    assert!(!starts_with("", "h"));
    assert!(starts_with("", ""));
}

#[test]
fn profile_url_rules() {
    assert_eq!(validate_profile_url(""), Ok(()));
    assert_eq!(validate_profile_url("https://img.example/p.png"), Ok(()));
    assert_eq!(
        validate_profile_url("http://img.example/p.png"),
        Err(AppError::FormatError(
            "Profile URL must start with 'https://'".to_string()
        ))
    );
}
