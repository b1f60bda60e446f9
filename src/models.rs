use vstd::prelude::*;

verus! {

/// Body of an OTP confirmation: the code, the subject and the hash that was
/// issued with the code.
#[derive(Debug, Clone)]
pub struct OTPBody {
    pub otp: String,
    pub user_id: u128,
    pub hash_code: String,
}

/// A body that names one identity.
#[derive(Debug, Clone)]
pub struct UserIdBody {
    pub user_id: u128,
}

/// An assertion of a federated identity provider.
#[derive(Debug, Clone)]
pub struct SSOBodyModel {
    pub id: String,
    pub first_name: String,
    pub last_name: String,
    pub photo: String,
    pub email: String,
    pub sso_provider: String,
}

/// A local registration request.
#[derive(Debug, Clone)]
pub struct RegisterBodyModel {
    pub id: u128,
    pub first_name: String,
    pub last_name: String,
    pub email: String,
    pub phone: Option<String>,
    pub password: Option<String>,
}

/// The identity record. Identifiers are UUIDs as 128-bit integers; instants
/// are UNIX seconds.
#[derive(Debug, Clone)]
pub struct UserModel {
    pub id: Option<u128>,
    pub first_name: Option<String>,
    pub last_name: Option<String>,
    pub email: Option<String>,
    pub phone: Option<String>,
    pub password: Option<String>,
    pub sso_provider: Option<String>,
    pub sso_id: Option<String>,
    pub is_active: Option<bool>,
    pub is_staff: Option<bool>,
    pub is_superuser: Option<bool>,
    pub date_joined: Option<u64>,
    pub last_login: Option<u64>,
}

/// Outcome of a single-sign-on reconciliation.
#[derive(Debug, Clone)]
pub struct UserResponse {
    pub user_id: Option<u128>,
    pub is_new: Option<bool>,
    pub is_active: Option<bool>,
}

/// Outcome of a registration conflict check: the colliding field, if any.
#[derive(Debug, Clone)]
pub struct FormCheckResponse {
    pub existing_field: Option<String>,
}

/// The view of an optional string.
pub open spec fn opt_view(o: Option<String>) -> Option<Seq<char>> {
    match o {
        Some(s) => Some(s@),
        None => None,
    }
}

/// A copy of an optional string.
pub fn copy_opt(o: &Option<String>) -> (r: Option<String>)
    ensures
        r == *o,
{
    match o {
        Some(s) => Some(s.clone()),
        None => None,
    }
}

impl UserModel {
    /// A field-by-field copy of the record.
    pub fn duplicate(&self) -> (r: UserModel)
        ensures
            r == *self,
    {
        UserModel {
            id: self.id,
            first_name: copy_opt(&self.first_name),
            last_name: copy_opt(&self.last_name),
            email: copy_opt(&self.email),
            phone: copy_opt(&self.phone),
            password: copy_opt(&self.password),
            sso_provider: copy_opt(&self.sso_provider),
            sso_id: copy_opt(&self.sso_id),
            is_active: self.is_active,
            is_staff: self.is_staff,
            is_superuser: self.is_superuser,
            date_joined: self.date_joined,
            last_login: self.last_login,
        }
    }
}

impl UserResponse {
    /// `201 Created` for an identity made by this call, else `200 OK`.
    pub fn status_code(&self) -> (r: u16)
        ensures
            r == (if self.is_new == Some(true) { 201u16 } else { 200u16 }),
    {
        match self.is_new {
            Some(true) => 201,
            _ => 200,
        }
    }
}

impl FormCheckResponse {
    /// `200 OK` when no field collides, else `409 Conflict`.
    pub fn status_code(&self) -> (r: u16)
        ensures
            r == (if self.existing_field matches Some(f) && f@.len() > 0 { 409u16 } else { 200u16 }),
    {
        match &self.existing_field {
            Some(f) => if f.unicode_len() == 0 { 200 } else { 409 },
            None => 200,
        }
    }
}

/// A monitor to create for the authenticated identity.
#[derive(Debug, Clone)]
pub struct MonitoringRequest {
    pub url: String,
    pub name: String,
    pub check_interval: i32,
    pub is_active: bool,
    pub ssl_check: SSLCheckRequest,
    pub advanced_settings: AdvancedSettingsRequest,
    pub notification_methods: Vec<i32>,
    pub request_headers: Vec<RequestHeaderRequest>,
    pub tags: Vec<String>,
}

/// Certificate and domain checks of a monitor.
#[derive(Debug, Clone)]
pub struct SSLCheckRequest {
    pub check_ssl_errors: bool,
    pub ssl_expiry_reminder: bool,
    pub domain_expiry_reminder: bool,
}

/// Request settings of a monitor.
#[derive(Debug, Clone)]
pub struct AdvancedSettingsRequest {
    pub request_timeout: i32,
    pub follow_redirects: bool,
    pub auth_type_id: Option<i32>,
    pub auth_username: Option<String>,
    pub auth_password: Option<String>,
    pub http_method: String,
    pub request_body: Option<String>,
    pub send_as_json: bool,
}

/// One header sent by a monitor.
#[derive(Debug, Clone)]
pub struct RequestHeaderRequest {
    pub name: String,
    pub value: String,
}

} // verus!
