//! Failures of the credential subsystem.

use vstd::prelude::*;

verus! {

#[derive(Debug)]
pub enum AppError {
    /// The persistent store failed; reported to callers without detail.
    Database,
    NotFound,
    BadRequest(String),
    Unauthorized(String),
    /// Authenticated, but the account may not proceed (for example, it is inactive).
    Forbidden,
    /// Wrong password or unknown account; the two are not told apart.
    InvalidCredentials,
    TokenExpired,
    TokenInvalid,
    ValidationError(String),
    HashError,
}

/// The HTTP status that a failure is answered with.
pub open spec fn status_of(e: AppError) -> u16 {
    match e {
        AppError::Database => 500,
        AppError::NotFound => 404,
        AppError::BadRequest(_) => 400,
        AppError::Unauthorized(_) => 401,
        AppError::Forbidden => 403,
        AppError::InvalidCredentials => 401,
        AppError::TokenExpired => 401,
        AppError::TokenInvalid => 401,
        AppError::ValidationError(_) => 400,
        AppError::HashError => 500,
    }
}

impl AppError {
    /// Store and hashing failures are server errors; authentication failures
    /// are 401, except an inactive account, which is 403.
    pub fn status_code(&self) -> (r: u16)
        ensures
            r == status_of(*self),
    {
        match self {
            AppError::Database => 500,
            AppError::NotFound => 404,
            AppError::BadRequest(_) => 400,
            AppError::Unauthorized(_) => 401,
            AppError::Forbidden => 403,
            AppError::InvalidCredentials => 401,
            AppError::TokenExpired => 401,
            AppError::TokenInvalid => 401,
            AppError::ValidationError(_) => 400,
            AppError::HashError => 500,
        }
    }
}

} // verus!
