use vstd::prelude::*;

use crate::error::AppError;
use crate::helpers::{generate_otp_and_hash_at, otp_digest, verify_otp_at, DEV_OTP_CODE, MAX_OTP_SECS};
use crate::jwt::{issued_claims, AuthClaims, JwtClaim, TOKEN_VALIDITY_SECS};
use crate::models::{OTPBody, RegisterBodyModel, SSOBodyModel, UserModel};
use crate::store::{
    activate_in, conflict_field, has_id, id_index, registered_record, snapshot, sso_step,
    IdentityStore,
};
use uuid::Uuid;
use vstd::arithmetic::power2::pow2;

verus! {

/// Latest instant at which a credential can be issued without its expiry
/// overflowing.
pub const MAX_ISSUE_SECS: u64 = u64::MAX - TOKEN_VALIDITY_SECS;

/// Lowercase hexadecimal digit of `n`, for `n` from 0 to 15.
pub open spec fn hex_digit(n: int) -> char {
    "0123456789abcdef"@[n]
}

/// The `i`-th of the 32 hexadecimal digits of `id`, most significant first.
pub open spec fn id_nibble(id: u128, i: int) -> int {
    (id as int / (pow2((4 * (31 - i)) as nat) as int)) % 16
}

/// How many hyphens stand before position `p` of the UUID text.
pub open spec fn hyphens_before(p: int) -> int {
    if p > 23 {
        4
    } else if p > 18 {
        3
    } else if p > 13 {
        2
    } else if p > 8 {
        1
    } else {
        0
    }
}

/// The hyphenated lowercase text of the UUID whose 128-bit value is `id`:
/// its 32 digits in groups of 8, 4, 4, 4 and 12, joined by hyphens.
pub open spec fn uuid_text_of(id: u128) -> Seq<char> {
    Seq::new(
        36,
        |p: int|
            if p == 8 || p == 13 || p == 18 || p == 23 {
                '-'
            } else {
                hex_digit(id_nibble(id, p - hyphens_before(p)))
            },
    )
}

/// Relies on uuid's `Uuid::from_u128` (the value in big-endian byte order)
/// and its `Display` (the hyphenated lowercase form): the text of an
/// identifier, used as the secret that binds a passcode to it.
#[verifier::external_body]
fn uuid_text(id: u128) -> (r: String)
    ensures
        r@ == uuid_text_of(id),
{
    Uuid::from_u128(id).to_string()
}

/// Relies on uuid's `Uuid::new_v4`: a random identifier for a new record.
#[verifier::external_body]
fn new_identity_id() -> (r: u128) {
    Uuid::new_v4().as_u128()
}

/// What a successful flow answers: the identity, the claims of the credential
/// issued for it, and the verification hashes of the passcodes sent out (empty
/// where none was).
#[derive(Debug, Clone)]
pub struct AuthResponse {
    pub data: UserModel,
    pub claim: JwtClaim,
    pub sms_hash: String,
    pub email_hash: String,
}

/// Text of the rejection of a credential whose identity has no identifier.
pub open spec fn token_data_text() -> Seq<char> {
    "Token Data Not Valid"@
}

/// The passcode subject of a credential's identity snapshot.
pub fn token_subject(claims: &AuthClaims) -> (r: Result<u128, AppError>)
    ensures
        claims.0.data.id matches Some(id) ==> r == Ok::<u128, AppError>(id),
        claims.0.data.id is None ==> (r matches Err(AppError::Unauthorized(m)) && m@
            == token_data_text()),
{
    match claims.0.data.id {
        Some(id) => Ok(id),
        None => Err(AppError::Unauthorized(String::from_str("Token Data Not Valid"))),
    }
}

/// Looks up the identity `user_id` and issues a credential for it at `now`.
pub fn get_user_model_response(
    store: &IdentityStore,
    user_id: u128,
    sms_hash: &str,
    email_hash: &str,
    now: u64,
) -> (r: Result<AuthResponse, AppError>)
    requires
        store.wf(),
        now <= MAX_ISSUE_SECS,
    ensures
        !has_id(store@, user_id) ==> r == Err::<AuthResponse, AppError>(AppError::NotFound),
        has_id(store@, user_id) ==> (r matches Ok(a) && a.data == snapshot(
            store@[id_index(store@, user_id)],
        ) && a.claim == issued_claims(a.data, now) && a.sms_hash@ == sms_hash@ && a.email_hash@
            == email_hash@),
{
    let user_model = store.get_user_info(user_id)?;
    let claim = JwtClaim::issued_at(user_model.duplicate(), now);
    Ok(
        AuthResponse {
            data: user_model,
            claim,
            sms_hash: String::from_str(sms_hash),
            email_hash: String::from_str(email_hash),
        },
    )
}

/// The phone that registration checks for collisions: empty when none is
/// given.
pub open spec fn phone_text(p: Option<String>) -> Seq<char> {
    match p {
        Some(s) => s@,
        None => ""@,
    }
}

/// The first field of a registration request that collides with another
/// identity in `users`.
pub open spec fn register_conflict(users: Seq<UserModel>, b: RegisterBodyModel) -> Option<
    Seq<char>,
> {
    conflict_field(users, b.email@, phone_text(b.phone), b.id)
}

/// The verification hash sent out for the subject `id` at `now`.
pub open spec fn subject_otp_hash(id: u128, now: u64) -> Seq<char> {
    otp_digest(DEV_OTP_CODE@, now as int, uuid_text_of(id))
}

/// The record of `id` is the only one that holds `id`.
proof fn lemma_id_index_at(users: Seq<UserModel>, id: u128, k: int)
    requires
        crate::store::users_wf(users),
        0 <= k < users.len(),
        users[k].id == Some(id),
    ensures
        has_id(users, id),
        id_index(users, id) == k,
{
    assert(has_id(users, id));
    let c = id_index(users, id);
    if c != k {
        assert(users[c].id != users[k].id);
    }
}

/// Local registration: refuses a request whose email or phone belongs to
/// another identity, adds a pending record, and answers it with a credential
/// and the hashes of the SMS and email passcodes.
pub fn register(store: &mut IdentityStore, register_model: &RegisterBodyModel, now: u64) -> (r:
    Result<AuthResponse, AppError>)
    requires
        old(store).wf(),
        now <= MAX_ISSUE_SECS,
    ensures
        final(store).wf(),
        register_conflict(old(store)@, *register_model) == Some("email"@) ==> (r matches Err(
            AppError::Conflict(f),
        ) && f@ == "Email"@ && final(store)@ == old(store)@),
        register_conflict(old(store)@, *register_model) == Some("phone"@) ==> (r matches Err(
            AppError::Conflict(f),
        ) && f@ == "Phone"@ && final(store)@ == old(store)@),
        register_conflict(old(store)@, *register_model) is None && now > MAX_OTP_SECS ==> r
            == Err::<AuthResponse, AppError>(AppError::ServerError) && final(store)@ == old(store)@,
        register_conflict(old(store)@, *register_model) is None && now <= MAX_OTP_SECS && has_id(
            old(store)@,
            register_model.id,
        ) ==> r == Err::<AuthResponse, AppError>(AppError::DatabaseError) && final(store)@ == old(store)@,
        register_conflict(old(store)@, *register_model) is None && now <= MAX_OTP_SECS && !has_id(
            old(store)@,
            register_model.id,
        ) ==> final(store)@ == old(store)@.push(registered_record(*register_model, now)) && (
        r matches Ok(a) && a.data == snapshot(registered_record(*register_model, now)) && a.claim
            == issued_claims(a.data, now) && a.sms_hash@ == subject_otp_hash(register_model.id, now)
            && a.email_hash@ == subject_otp_hash(register_model.id, now)),
{
    let phone: &str = match &register_model.phone {
        Some(p) => p.as_str(),
        None => "",
    };
    let response = store.check_register_field(
        register_model.email.as_str(),
        phone,
        register_model.id,
    );
    proof {
        reveal_strlit("email");
        reveal_strlit("phone");
        assert("email"@[0] != "phone"@[0]);
    }
    if let Some(existing_field) = response.existing_field {
        if existing_field == String::from_str("email") {
            return Err(AppError::Conflict(String::from_str("Email")));
        } else if existing_field == String::from_str("phone") {
            return Err(AppError::Conflict(String::from_str("Phone")));
        } else {
            return Err(AppError::Conflict(String::from_str("Unknown")));
        }
    }
    let secret = uuid_text(register_model.id);
    let sms_hash = match generate_otp_and_hash_at(secret.as_str(), now) {
        Some((_, hash)) => hash,
        None => return Err(AppError::ServerError),
    };
    let email_hash = match generate_otp_and_hash_at(secret.as_str(), now) {
        Some((_, hash)) => hash,
        None => return Err(AppError::ServerError),
    };
    let ghost before = store@;
    store.insert_user(register_model, now)?;
    proof {
        lemma_id_index_at(store@, register_model.id, before.len() as int);
    }
    get_user_model_response(store, register_model.id, sms_hash.as_str(), email_hash.as_str(), now)
}

/// The answer to a single sign-on whose reconciliation reported `resp`:
/// the status, and the reconciled record of `users` with a credential.
pub open spec fn sso_answer(
    users: Seq<UserModel>,
    resp: crate::models::UserResponse,
    status: u16,
    a: AuthResponse,
    now: u64,
) -> bool {
    &&& status == (if resp.is_new == Some(true) {
        201u16
    } else {
        200u16
    })
    &&& resp.user_id is Some
    &&& has_id(users, resp.user_id->Some_0)
    &&& a.data == snapshot(users[id_index(users, resp.user_id->Some_0)])
    &&& a.claim == issued_claims(a.data, now)
    &&& a.sms_hash@ == ""@
    &&& a.email_hash@ == ""@
}

/// Single sign-on with `new_id` as the identifier of a record that has to be
/// created: reconciles the assertion into the store and answers the
/// reconciled identity with a credential, `201` when it was created and
/// `200` otherwise.
pub fn sso_with_id(store: &mut IdentityStore, sso_model: &SSOBodyModel, new_id: u128, now: u64) -> (r:
    Result<(u16, AuthResponse), AppError>)
    requires
        old(store).wf(),
        now <= MAX_ISSUE_SECS,
    ensures
        final(store).wf(),
        final(store)@ == sso_step(old(store)@, *sso_model, new_id, now).0,
        sso_step(old(store)@, *sso_model, new_id, now).1 is Err ==> r == Err::<
            (u16, AuthResponse),
            AppError,
        >(AppError::NotFound),
        sso_step(old(store)@, *sso_model, new_id, now).1 is Ok ==> (r matches Ok((status, a))
            && sso_answer(
            final(store)@,
            sso_step(old(store)@, *sso_model, new_id, now).1->Ok_0,
            status,
            a,
            now,
        )),
{
    let ghost before = store@;
    let response = store.check_sso(sso_model, new_id, now)?;
    proof {
        crate::store::lemma_sso_step_wf(before, *sso_model, new_id, now);
        if crate::store::sso_found(before, *sso_model) {
            let k = crate::store::sso_index(before, *sso_model);
            assert(before[k].id is Some);
            assert(store@[k].id == response.user_id);
        } else {
            assert(store@[before.len() as int].id == Some(new_id));
        }
    }
    let user_id = match response.user_id {
        Some(id) => id,
        None => return Err(AppError::NotFound),
    };
    proof {
        if crate::store::sso_found(before, *sso_model) {
            let k = crate::store::sso_index(before, *sso_model);
            lemma_id_index_at(store@, user_id, k);
        } else {
            lemma_id_index_at(store@, user_id, before.len() as int);
        }
    }
    let status = response.status_code();
    let a = get_user_model_response(store, user_id, "", "", now)?;
    Ok((status, a))
}

/// Single sign-on: reconciles the assertion into the store, with a random
/// identifier for a record that has to be created.
pub fn sso(store: &mut IdentityStore, sso_model: &SSOBodyModel, now: u64) -> (r: Result<
    (u16, AuthResponse),
    AppError,
>)
    requires
        old(store).wf(),
        now <= MAX_ISSUE_SECS,
    ensures
        final(store).wf(),
        exists|new_id: u128|
            final(store)@ == (#[trigger] sso_step(old(store)@, *sso_model, new_id, now)).0 && (r
                is Ok <==> sso_step(old(store)@, *sso_model, new_id, now).1 is Ok),
{
    let new_id = new_identity_id();
    let r = sso_with_id(store, sso_model, new_id, now);
    assert(final(store)@ == sso_step(old(store)@, *sso_model, new_id, now).0);
    r
}

/// OTP confirmation: when the hash verifies the code for the subject in the
/// current time bucket, marks the subject active; otherwise refuses it and
/// leaves the store as it is.
pub fn check_otp(store: &mut IdentityStore, otp_model: &OTPBody, now: u64) -> (r: Result<
    (),
    AppError,
>)
    requires
        old(store).wf(),
    ensures
        final(store).wf(),
        (now <= MAX_OTP_SECS && otp_model.hash_code@ == otp_digest(
            otp_model.otp@,
            now as int,
            uuid_text_of(otp_model.user_id),
        )) ==> r is Ok && final(store)@ == activate_in(old(store)@, otp_model.user_id, now),
        !(now <= MAX_OTP_SECS && otp_model.hash_code@ == otp_digest(
            otp_model.otp@,
            now as int,
            uuid_text_of(otp_model.user_id),
        )) ==> (r matches Err(AppError::Unauthorized(m)) && m@ == "Invalid OTP Code"@ && final(store)@ == old(store)@),
{
    let secret = uuid_text(otp_model.user_id);
    let ok = verify_otp_at(
        otp_model.otp.as_str(),
        otp_model.hash_code.as_str(),
        secret.as_str(),
        now,
    );
    if ok {
        store.update_user_register_ok(otp_model.user_id, now)
    } else {
        Err(AppError::Unauthorized(String::from_str("Invalid OTP Code")))
    }
}

/// A passcode and its hash for the subject of the credential.
fn subject_otp(claims: &AuthClaims, now: u64) -> (r: Result<(String, String), AppError>)
    ensures
        claims.0.data.id is None ==> (r matches Err(AppError::Unauthorized(m)) && m@
            == token_data_text()),
        (claims.0.data.id is Some && now > MAX_OTP_SECS) ==> r == Err::<
            (String, String),
            AppError,
        >(AppError::ServerError),
        (claims.0.data.id is Some && now <= MAX_OTP_SECS) ==> (r matches Ok((code, hash))
            && code@ == DEV_OTP_CODE@ && hash@ == subject_otp_hash(claims.0.data.id->Some_0, now)),
{
    let user_id = token_subject(claims)?;
    let secret = uuid_text(user_id);
    match generate_otp_and_hash_at(secret.as_str(), now) {
        Some(pair) => Ok(pair),
        None => Err(AppError::ServerError),
    }
}

/// A passcode for the SMS channel of the credential's subject, and its hash.
pub fn send_sms_otp(claims: &AuthClaims, now: u64) -> (r: Result<(String, String), AppError>)
    ensures
        claims.0.data.id is None ==> (r matches Err(AppError::Unauthorized(m)) && m@
            == token_data_text()),
        (claims.0.data.id is Some && now > MAX_OTP_SECS) ==> r == Err::<
            (String, String),
            AppError,
        >(AppError::ServerError),
        (claims.0.data.id is Some && now <= MAX_OTP_SECS) ==> (r matches Ok((code, hash))
            && code@ == DEV_OTP_CODE@ && hash@ == subject_otp_hash(claims.0.data.id->Some_0, now)),
{
    subject_otp(claims, now)
}

/// A passcode for the email channel of the credential's subject, and its
/// hash.
pub fn send_email_otp(claims: &AuthClaims, now: u64) -> (r: Result<(String, String), AppError>)
    ensures
        claims.0.data.id is None ==> (r matches Err(AppError::Unauthorized(m)) && m@
            == token_data_text()),
        (claims.0.data.id is Some && now > MAX_OTP_SECS) ==> r == Err::<
            (String, String),
            AppError,
        >(AppError::ServerError),
        (claims.0.data.id is Some && now <= MAX_OTP_SECS) ==> (r matches Ok((code, hash))
            && code@ == DEV_OTP_CODE@ && hash@ == subject_otp_hash(claims.0.data.id->Some_0, now)),
{
    subject_otp(claims, now)
}

/// Completes a registration: marks `user_id` active.
pub fn register_complete(store: &mut IdentityStore, user_id: u128, now: u64) -> (r: Result<
    (),
    AppError,
>)
    requires
        old(store).wf(),
    ensures
        final(store).wf(),
        r is Ok,
        final(store)@ == activate_in(old(store)@, user_id, now),
{
    store.update_user_register_ok(user_id, now)
}

/// Self-lookup: the current record of the credential's subject, re-read from
/// the store, with a fresh credential.
pub fn get_user_detail(store: &IdentityStore, claims: &AuthClaims, now: u64) -> (r: Result<
    AuthResponse,
    AppError,
>)
    requires
        store.wf(),
        now <= MAX_ISSUE_SECS,
    ensures
        claims.0.data.id is None ==> (r matches Err(AppError::Unauthorized(m)) && m@
            == token_data_text()),
        (claims.0.data.id is Some && !has_id(store@, claims.0.data.id->Some_0)) ==> r == Err::<
            AuthResponse,
            AppError,
        >(AppError::NotFound),
        (claims.0.data.id is Some && has_id(store@, claims.0.data.id->Some_0)) ==> (r matches Ok(a) && a.data
            == snapshot(store@[id_index(store@, claims.0.data.id->Some_0)]) && a.claim == issued_claims(a.data, now)
            && a.sms_hash@ == ""@ && a.email_hash@ == ""@),
{
    let user_id = token_subject(claims)?;
    get_user_model_response(store, user_id, "", "", now)
}

/// Once a registration has added its record, a registration of another
/// identifier with the same email is refused on the email.
pub proof fn lemma_registered_email_conflicts(
    users: Seq<UserModel>,
    first: RegisterBodyModel,
    second: RegisterBodyModel,
    now: u64,
)
    requires
        second.email@ == first.email@,
        second.id != first.id,
    ensures
        register_conflict(users.push(registered_record(first, now)), second) == Some("email"@),
{
    let after = users.push(registered_record(first, now));
    let k = users.len() as int;
    assert(crate::store::field_is(after[k].email, second.email@));
    assert(crate::store::email_conflict(after, second.email@, second.id));
}

/// The hashes that registration hands out confirm the new identity at every
/// instant of the same time bucket, with the passcode sent out.
pub proof fn lemma_registration_hash_confirms(id: u128, now: u64, checked: u64)
    requires
        now / crate::helpers::OTP_BUCKET_SECS == checked / crate::helpers::OTP_BUCKET_SECS,
    ensures
        subject_otp_hash(id, now) == otp_digest(DEV_OTP_CODE@, checked as int, uuid_text_of(id)),
{
    crate::helpers::lemma_otp_same_bucket(DEV_OTP_CODE@, uuid_text_of(id), now as int, checked as int);
}

} // verus!
