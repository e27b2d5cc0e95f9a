//! The credential service: one-way password hashing and verification,
//! provided by the `bcrypt` crate behind trusted wrappers. A digest embeds a
//! random salt, so hashing is not a function of the password alone; what is
//! deterministic — and named below — is whether a digest is well-formed and
//! whether a given digest accepts a given password.

use vstd::prelude::*;

use crate::errors::{AppError, AppErrorType};

verus! {

/// The hashing cost the platform uses.
pub const HASH_COST: u32 = 12;

/// Whether bcrypt verification accepts `password` against `digest`. This is
/// the (deterministic) boolean that `bcrypt::verify` computes from the two
/// arguments.
pub uninterp spec fn verifies(digest: Seq<char>, password: Seq<char>) -> bool;

/// Whether `digest` is a well-formed bcrypt hash: sixty ASCII characters in
/// the bcrypt format, carrying a cost the algorithm accepts. This is the
/// condition under which `bcrypt::verify` parses the digest and returns a
/// verdict instead of an error; it depends on the digest's characters alone.
pub uninterp spec fn is_bcrypt_digest(digest: Seq<char>) -> bool;

/// Relies on bcrypt::hash: the digest embeds the cost and the random salt in
/// the well-formed bcrypt format, and bcrypt::verify re-derives the hash from
/// them with the same truncation rules, so a digest this call returns is
/// well-formed and accepts the password it was made from.
#[verifier::external_body]
fn bcrypt_hash(password: &str, cost: u32) -> (r: Result<String, String>)
    ensures
        r matches Ok(d) ==> verifies(d@, password@) && is_bcrypt_digest(d@),
{
    bcrypt::hash(password, cost).map_err(|e| e.to_string())
}

/// Relies on bcrypt::verify: deterministic in the digest and the password,
/// and it errors exactly when the digest is not a well-formed bcrypt hash.
#[verifier::external_body]
fn bcrypt_verify(password: &str, digest: &str) -> (r: Result<bool, String>)
    ensures
        r is Ok <==> is_bcrypt_digest(digest@),
        r matches Ok(b) ==> b == verifies(digest@, password@),
{
    bcrypt::verify(password, digest).map_err(|e| e.to_string())
}

/// The credential service itself is stateless.
pub struct CryptoService;

impl CryptoService {
    /// Hash a plaintext password into a well-formed digest that verifies
    /// against it.
    pub fn hash_password(password: String) -> (r: Result<String, AppError>)
        ensures
            r matches Ok(d) ==> verifies(d@, password@) && is_bcrypt_digest(d@),
            r matches Err(e) ==> e.error_type == AppErrorType::HashingError,
    {
        match bcrypt_hash(password.as_str(), HASH_COST) {
            Ok(d) => Ok(d),
            Err(cause) => Err(
                AppError {
                    cause: Some(cause),
                    message: None,
                    error_type: AppErrorType::HashingError,
                },
            ),
        }
    }

    /// Check a plaintext password against a stored digest. A verdict comes
    /// back exactly when the digest is well-formed.
    pub fn verify_hash(hashed_password: String, password: String) -> (r: Result<bool, AppError>)
        ensures
            r is Ok <==> is_bcrypt_digest(hashed_password@),
            r matches Ok(b) ==> b == verifies(hashed_password@, password@),
            r matches Err(e) ==> e.error_type == AppErrorType::HashingError,
    {
        match bcrypt_verify(password.as_str(), hashed_password.as_str()) {
            Ok(b) => Ok(b),
            Err(cause) => Err(
                AppError {
                    cause: Some(cause),
                    message: None,
                    error_type: AppErrorType::HashingError,
                },
            ),
        }
    }
}

} // verus!
