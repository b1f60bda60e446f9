use vstd::prelude::*;

use crate::error::AppError;
use crate::helpers::{has_prefix, now_secs, starts_with};
use crate::models::UserModel;

verus! {

/// How long a session credential stays valid: 200 days, in seconds.
pub const TOKEN_VALIDITY_SECS: u64 = 200 * 24 * 60 * 60;

/// The claims of a session credential: the identity snapshot as of issuance,
/// the instant of issuance and the instant of expiry, in UNIX seconds.
#[derive(Debug, Clone)]
pub struct JwtClaim {
    pub data: UserModel,
    pub iat: u64,
    pub exp: u64,
}

/// The claims issued for `data` at the instant `now`.
pub open spec fn issued_claims(data: UserModel, now: u64) -> JwtClaim {
    JwtClaim { data, iat: now, exp: (now + TOKEN_VALIDITY_SECS) as u64 }
}

/// The credential is still valid at the instant `now`.
pub open spec fn claims_live(c: JwtClaim, now: u64) -> bool {
    now < c.exp
}

/// Text of the rejection of an invalid or expired credential.
pub open spec fn invalid_token_text() -> Seq<char> {
    "Invalid token"@
}

impl JwtClaim {
    /// The claims for `data` issued at the instant `now`.
    pub fn issued_at(data: UserModel, now: u64) -> (r: JwtClaim)
        requires
            now <= u64::MAX - TOKEN_VALIDITY_SECS,
        ensures
            r == issued_claims(data, now),
    {
        JwtClaim { data, iat: now, exp: now + TOKEN_VALIDITY_SECS }
    }

    /// The claims for `data` issued at the current clock reading.
    pub fn new(data: UserModel) -> (r: JwtClaim)
        ensures
            r.data == data,
            r.exp == r.iat + TOKEN_VALIDITY_SECS,
    {
        let now = now_secs();
        JwtClaim::issued_at(data, now)
    }
}

/// Accepts decoded, signature-checked claims while they are live at the
/// instant `now`; rejects them as unauthorized once `exp` is not after
/// `now`.
pub fn verify_claims(claim: JwtClaim, now: u64) -> (r: Result<JwtClaim, AppError>)
    ensures
        claims_live(claim, now) ==> r == Ok::<JwtClaim, AppError>(claim),
        !claims_live(claim, now) ==> (r matches Err(AppError::Unauthorized(m)) && m@
            == invalid_token_text()),
{
    if now < claim.exp {
        Ok(claim)
    } else {
        Err(AppError::Unauthorized(String::from_str("Invalid token")))
    }
}

/// The credential carried by an `Authorization` header value of the form
/// `Bearer <token>`.
pub fn bearer_token(header: Option<&str>) -> (r: Result<String, AppError>)
    ensures
        header is None ==> (r matches Err(AppError::Unauthorized(m)) && m@
            == "Missing authorization header"@),
        (header matches Some(h) && !has_prefix(h@, "Bearer "@)) ==> (r matches Err(
            AppError::Unauthorized(m),
        ) && m@ == "Invalid authorization scheme"@),
        (header matches Some(h) && has_prefix(h@, "Bearer "@)) ==> (r matches Ok(t) && t@
            == header->Some_0@.subrange(7, header->Some_0@.len() as int)),
{
    match header {
        None => Err(AppError::Unauthorized(String::from_str("Missing authorization header"))),
        Some(h) => {
            if !starts_with(h, "Bearer ") {
                return Err(AppError::Unauthorized(String::from_str("Invalid authorization scheme")));
            }
            proof {
                reveal_strlit("Bearer ");
            }
            let n = h.unicode_len();
            Ok(String::from_str(h.substring_char(7, n)))
        },
    }
}

/// Claims that passed the bearer-credential check of a request.
#[derive(Debug, Clone)]
pub struct AuthClaims(pub JwtClaim);

/// Claims issued at `now` for `data` are accepted at every instant before the
/// end of the validity window, hand back `data` unchanged, and span exactly
/// the validity window.
pub proof fn lemma_issue_then_verify(data: UserModel, now: u64, checked: u64)
    requires
        now <= u64::MAX - TOKEN_VALIDITY_SECS,
        checked < now + TOKEN_VALIDITY_SECS,
    ensures
        claims_live(issued_claims(data, now), checked),
        issued_claims(data, now).data == data,
        issued_claims(data, now).exp - issued_claims(data, now).iat == TOKEN_VALIDITY_SECS,
{
}

/// Claims whose expiry is not after the instant of the check are rejected.
pub proof fn lemma_expired_rejected(claim: JwtClaim, now: u64)
    requires
        claim.exp <= now,
    ensures
        !claims_live(claim, now),
{
}

} // verus!
