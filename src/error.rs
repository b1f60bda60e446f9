use vstd::prelude::*;

verus! {

/// The error taxonomy of the authentication flows.
#[derive(Debug, Clone, PartialEq, Eq)]
pub enum AppError {
    NotFound,
    ServerError,
    Unauthorized(String),
    FormatError(String),
    DatabaseError,
    Conflict(String),
    ValidationError(String),
}

/// HTTP status that each kind of error is answered with.
pub open spec fn status_of(e: AppError) -> u16 {
    match e {
        AppError::NotFound => 404,
        AppError::ServerError => 500,
        AppError::Unauthorized(_) => 401,
        AppError::FormatError(_) => 422,
        AppError::DatabaseError => 422,
        AppError::Conflict(_) => 409,
        AppError::ValidationError(_) => 404,
    }
}

/// Text of the `message` field of the error body.
pub open spec fn message_of(e: AppError) -> Seq<char> {
    match e {
        AppError::NotFound => "Not Fount"@,
        AppError::ServerError => "Not Fount"@,
        AppError::DatabaseError => "Database Error"@,
        AppError::Conflict(field) => field@ + " already exists"@,
        AppError::ValidationError(m) => m@,
        AppError::Unauthorized(m) => m@,
        AppError::FormatError(m) => m@,
    }
}

impl AppError {
    /// The HTTP status code of the response for this error.
    pub fn status_code(&self) -> (r: u16)
        ensures
            r == status_of(*self),
    {
        match self {
            AppError::NotFound => 404,
            AppError::ServerError => 500,
            AppError::Unauthorized(_) => 401,
            AppError::FormatError(_) => 422,
            AppError::DatabaseError => 422,
            AppError::Conflict(_) => 409,
            AppError::ValidationError(_) => 404,
        }
    }

    /// The `message` carried in the JSON body of the response.
    pub fn message(&self) -> (r: String)
        ensures
            r@ == message_of(*self),
    {
        match self {
            AppError::NotFound => String::from_str("Not Fount"),
            AppError::ServerError => String::from_str("Not Fount"),
            AppError::DatabaseError => String::from_str("Database Error"),
            AppError::Conflict(field) => field.clone().concat(" already exists"),
            AppError::ValidationError(m) => m.clone(),
            AppError::Unauthorized(m) => m.clone(),
            AppError::FormatError(m) => m.clone(),
        }
    }
}

} // verus!
