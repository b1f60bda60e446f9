use vstd::prelude::*;

use crate::error::AppError;
use chrono::{DateTime, Utc};
use sha2::{Digest, Sha256};

verus! {

/// Width of one OTP time bucket, in seconds: a code is valid within the clock
/// hour in which it was issued.
pub const OTP_BUCKET_SECS: u64 = 3600;

/// Last second (UTC) of the year 9999: the hour stamp of a bucket is written
/// with a four-digit year, so later instants are not given one.
pub const MAX_OTP_SECS: u64 = 253402300799;

/// The passcode handed out by the development code path.
pub const DEV_OTP_CODE: &'static str = "1234";

/// The stamp `%Y%m%d%H` that chrono writes for the UTC instant `secs`.
pub uninterp spec fn hour_stamp_of(secs: int) -> Seq<char>;

/// Lowercase hexadecimal SHA-256 digest of the UTF-8 bytes of `msg`.
pub uninterp spec fn sha256_hex_of(msg: Seq<char>) -> Seq<char>;

/// First second of the time bucket that holds `now`.
pub open spec fn bucket_start(now: int) -> int {
    now - now % (OTP_BUCKET_SECS as int)
}

/// The verification hash of `code` for `secret`, in the bucket of `now`.
pub open spec fn otp_digest(code: Seq<char>, now: int, secret: Seq<char>) -> Seq<char> {
    sha256_hex_of(code + hour_stamp_of(bucket_start(now)) + secret)
}

/// `s` begins with `p`.
pub open spec fn has_prefix(s: Seq<char>, p: Seq<char>) -> bool {
    p.len() <= s.len() && s.subrange(0, p.len() as int) == p
}

/// A profile URL is accepted when it is empty or uses the secure scheme.
pub open spec fn profile_url_ok(url: Seq<char>) -> bool {
    url.len() == 0 || has_prefix(url, "https://"@)
}

/// Relies on chrono's `DateTime::from_timestamp` and `format`: the stamp of
/// a UTC instant, which chrono represents for every year up to 9999.
#[verifier::external_body]
fn hour_stamp(secs: u64) -> (r: String)
    requires
        secs <= MAX_OTP_SECS,
    ensures
        r@ == hour_stamp_of(secs as int),
{
    let instant: DateTime<Utc> = DateTime::from_timestamp(secs as i64, 0).unwrap();
    instant.format("%Y%m%d%H").to_string()
}

/// Relies on sha2's `Sha256::digest`, written out in lowercase hexadecimal.
#[verifier::external_body]
fn sha256_hex(msg: &str) -> (r: String)
    ensures
        r@ == sha256_hex_of(msg@),
{
    format!("{:x}", Sha256::digest(msg.as_bytes()))
}

/// Relies on chrono's `Utc::now`: the current UNIX time in seconds.
#[verifier::external_body]
fn clock_timestamp() -> (r: i64) {
    Utc::now().timestamp()
}

/// The current UNIX time in seconds; a clock set before 1970 reads as 0.
pub fn now_secs() -> (r: u64)
    ensures
        r <= i64::MAX,
{
    let t = clock_timestamp();
    if t < 0 {
        0
    } else {
        t as u64
    }
}

/// Whether `s` begins with `p`.
pub fn starts_with(s: &str, p: &str) -> (r: bool)
    ensures
        r == has_prefix(s@, p@),
{
    let n = s.unicode_len();
    let m = p.unicode_len();
    if m > n {
        return false;
    }
    let mut i: usize = 0;
    while i < m
        invariant
            m == p@.len(),
            n == s@.len(),
            m <= n,
            i <= m,
            forall|k: int| 0 <= k < i ==> s@[k] == p@[k],
        decreases m - i,
    {
        if s.get_char(i) != p.get_char(i) {
            assert(s@.subrange(0, m as int)[i as int] != p@[i as int]);
            return false;
        }
        i = i + 1;
    }
    assert(s@.subrange(0, m as int) =~= p@);
    true
}

/// Rejects a profile URL that is neither empty nor `https://`.
pub fn validate_profile_url(url: &str) -> (r: Result<(), AppError>)
    ensures
        r is Ok <==> profile_url_ok(url@),
        r matches Err(e) ==> e matches AppError::FormatError(m)
            && m@ == "Profile URL must start with 'https://'"@,
{
    if !starts_with(url, "https://") && url.unicode_len() != 0 {
        Err(AppError::FormatError(String::from_str("Profile URL must start with 'https://'")))
    } else {
        Ok(())
    }
}

/// The verification hash of `code` for `secret` at the instant `now`;
/// `None` past the last instant that has an hour stamp.
pub fn otp_hash_at(code: &str, secret: &str, now: u64) -> (r: Option<String>)
    ensures
        r is Some <==> now <= MAX_OTP_SECS,
        r matches Some(h) ==> h@ == otp_digest(code@, now as int, secret@),
{
    if now > MAX_OTP_SECS {
        return None;
    }
    let start = now - now % OTP_BUCKET_SECS;
    let stamp = hour_stamp(start);
    let mut combined = String::from_str(code);
    combined.append(stamp.as_str());
    combined.append(secret);
    Some(sha256_hex(combined.as_str()))
}

/// A fresh passcode and its verification hash for `secret` at the instant
/// `now`; `None` past the last instant that has an hour stamp.
pub fn generate_otp_and_hash_at(secret: &str, now: u64) -> (r: Option<(String, String)>)
    ensures
        r is Some <==> now <= MAX_OTP_SECS,
        r matches Some((code, hash)) ==> code@ == DEV_OTP_CODE@ && hash@ == otp_digest(
            code@,
            now as int,
            secret@,
        ),
{
    let code = String::from_str(DEV_OTP_CODE);
    match otp_hash_at(code.as_str(), secret, now) {
        Some(hash) => Some((code, hash)),
        None => None,
    }
}

/// Whether `hash` is the verification hash of `otp` for `secret` in the
/// time bucket of `now`.
pub fn verify_otp_at(otp: &str, hash: &str, secret: &str, now: u64) -> (r: bool)
    ensures
        r == (now <= MAX_OTP_SECS && hash@ == otp_digest(otp@, now as int, secret@)),
{
    match otp_hash_at(otp, secret, now) {
        Some(calculated) => calculated == String::from_str(hash),
        None => false,
    }
}

/// A fresh passcode and its verification hash for `secret`, bound to the
/// time bucket of the current clock reading.
pub fn generate_otp_and_hash(secret: &str) -> (r: Option<(String, String)>)
    ensures
        r matches Some((code, hash)) ==> code@ == DEV_OTP_CODE@ && exists|t: int|
            0 <= t <= MAX_OTP_SECS && hash@ == #[trigger] otp_digest(code@, t, secret@),
{
    let now = now_secs();
    generate_otp_and_hash_at(secret, now)
}

/// Whether `hash` verifies `otp` for `secret` at the current clock reading.
pub fn verify_otp(otp: &str, hash: &str, secret: &str) -> (r: bool)
    ensures
        r ==> exists|t: int| 0 <= t <= MAX_OTP_SECS && hash@ == #[trigger] otp_digest(otp@, t, secret@),
{
    let now = now_secs();
    verify_otp_at(otp, hash, secret, now)
}

/// The hash of a code depends on the instant only through its time bucket:
/// a code issued for a secret verifies against that secret at every instant
/// of the same bucket.
pub proof fn lemma_otp_same_bucket(code: Seq<char>, secret: Seq<char>, issued: int, checked: int)
    requires
        0 <= issued,
        0 <= checked,
        issued / (OTP_BUCKET_SECS as int) == checked / (OTP_BUCKET_SECS as int),
    ensures
        otp_digest(code, issued, secret) == otp_digest(code, checked, secret),
{
    assert(bucket_start(issued) == bucket_start(checked));
}

} // verus!
