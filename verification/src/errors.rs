//! Typed error outcomes. Every fallible operation of the library reports one
//! of these kinds; nothing is retried or swallowed, the caller turns the
//! value into its transport's failure response.

use vstd::prelude::*;

verus! {

/// The kinds of failure the platform distinguishes.
#[derive(Clone, Copy, Debug, PartialEq, Eq, Structural)]
pub enum AppErrorType {
    /// The document store failed an operation.
    DatabaseError,
    /// The addressed entity does not exist.
    NotFoundError,
    /// A credential was missing where one is required.
    JWtTokenError,
    /// A presented credential did not decode or validate.
    JWTParsingError,
    /// The external file relay failed.
    FileUploadError,
    /// A caller-supplied identifier is malformed.
    InavlidId,
    /// A uniqueness rule (username, email) was violated.
    ALREADYEXIST,
    /// The password-hashing service failed.
    HashingError,
    /// Outbound mail could not be sent.
    EmailError,
}

/// A structured error: machine-readable kind, human message, diagnostic cause.
#[derive(Debug)]
pub struct AppError {
    pub message: Option<String>,
    pub cause: Option<String>,
    pub error_type: AppErrorType,
}

impl AppError {
    /// The human-readable message, with a fixed fallback where none was set.
    pub fn message(&self) -> (m: String)
        ensures
            self.message matches Some(s) ==> m@ == s@,
            self.message is None ==> m@ == "Unexpected Error"@,
    {
        match &self.message {
            Some(message) => message.clone(),
            None => "Unexpected Error".to_owned(),
        }
    }

    /// The diagnostic cause, with the same fallback.
    pub fn cause(&self) -> (c: String)
        ensures
            self.cause matches Some(s) ==> c@ == s@,
            self.cause is None ==> c@ == "Unexpected Error"@,
    {
        match &self.cause {
            Some(cause) => cause.clone(),
            None => "Unexpected Error".to_owned(),
        }
    }

    /// The HTTP status the kind maps to.
    pub fn status_code(&self) -> (code: u16)
        ensures
            code == spec_status_code(self.error_type),
    {
        match self.error_type {
            AppErrorType::DatabaseError => 500,
            AppErrorType::NotFoundError => 404,
            AppErrorType::JWtTokenError => 401,
            AppErrorType::FileUploadError => 500,
            AppErrorType::JWTParsingError => 500,
            AppErrorType::InavlidId => 404,
            AppErrorType::ALREADYEXIST => 409,
            AppErrorType::HashingError => 500,
            AppErrorType::EmailError => 500,
        }
    }

    /// The response body sent for this error: message and cause, with the
    /// fallbacks applied.
    pub fn error_response(&self) -> (r: AppErrorResponse)
        ensures
            self.message matches Some(s) ==> r.error@ == s@,
            self.message is None ==> r.error@ == "Unexpected Error"@,
            self.cause matches Some(s) ==> r.cause@ == s@,
            self.cause is None ==> r.cause@ == "Unexpected Error"@,
    {
        AppErrorResponse { error: self.message(), cause: self.cause() }
    }
}

/// The status each error kind carries to the HTTP boundary.
pub open spec fn spec_status_code(t: AppErrorType) -> u16 {
    match t {
        AppErrorType::DatabaseError => 500,
        AppErrorType::NotFoundError => 404,
        AppErrorType::JWtTokenError => 401,
        AppErrorType::FileUploadError => 500,
        AppErrorType::JWTParsingError => 500,
        AppErrorType::InavlidId => 404,
        AppErrorType::ALREADYEXIST => 409,
        AppErrorType::HashingError => 500,
        AppErrorType::EmailError => 500,
    }
}

/// The wire shape of an error: what the caller sees.
#[derive(Debug)]
pub struct AppErrorResponse {
    pub error: String,
    pub cause: String,
}

} // verus!
