//! The token service: signed, time-limited identity assertions. A token
//! carries a subject (the user id) and an expiry instant (epoch seconds) and
//! is signed with the process's fixed secret. Issuing and checking the
//! signature are done by the `jsonwebtoken` crate behind trusted wrappers;
//! the expiry comparison is verified code, so callers pass the current time
//! in explicitly.

use vstd::prelude::*;

use crate::errors::{AppError, AppErrorType};

verus! {

/// How long a token stays valid from issuance: one day, in seconds.
pub const TOKEN_VALIDITY_SECS: u64 = 86400;

/// The claims embedded in a token.
#[derive(Debug)]
pub struct Claims {
    pub sub: String,
    pub exp: u64,
}

/// The signed token that the token service issues for a subject and an
/// expiry instant. The signature and the encoding depend on the claims and
/// the fixed signing secret alone, so the token is a function of the two.
pub uninterp spec fn token_of(sub: Seq<char>, exp: u64) -> Seq<char>;

/// The subject and expiry that signature checking recovers from a presented
/// token, or nothing when it refuses the token. Verification against the
/// fixed secret is a function of the token's characters alone.
pub uninterp spec fn claims_in(token: Seq<char>) -> Option<(Seq<char>, u64)>;

/// Relies on jsonwebtoken::encode with HS256 and the fixed signing secret:
/// header and claims are serialized deterministically and signed with HMAC,
/// so a token it returns is the one token for these claims, and decoding it
/// recovers exactly the claims it was made from. In this configuration the
/// call cannot fail: the HMAC signer accepts a secret of any length, signing
/// is unconditional, and the header and the string/integer claims always
/// serialize.
#[verifier::external_body]
fn jwt_encode(sub: &str, exp: u64) -> (r: Result<String, String>)
    ensures
        r is Ok,
        r matches Ok(t) ==> t@ == token_of(sub@, exp) && claims_in(t@) == Some((sub@, exp)),
{
    let mut claims = serde_json::Map::new();
    claims.insert("sub".to_string(), serde_json::Value::String(sub.to_string()));
    claims.insert("exp".to_string(), serde_json::Value::from(exp));
    jsonwebtoken::encode(
        &jsonwebtoken::Header::new(jsonwebtoken::Algorithm::HS256),
        &serde_json::Value::Object(claims),
        &jsonwebtoken::EncodingKey::from_secret(b"hello"),
    ).map_err(|e| e.to_string())
}

/// Relies on jsonwebtoken::decode with HS256 and the same fixed secret, with
/// the clock-dependent expiry check turned off: it checks the token's
/// signature and hands back the subject and expiry embedded in the signed
/// payload — the claims named by `claims_in`.
#[verifier::external_body]
fn jwt_decode(token: &str) -> (r: Result<Claims, String>)
    ensures
        r matches Ok(c) ==> claims_in(token@) == Some((c.sub@, c.exp)),
        r matches Err(m) ==> claims_in(token@) is None,
{
    let mut validation = jsonwebtoken::Validation::new(jsonwebtoken::Algorithm::HS256);
    validation.validate_exp = false;
    match jsonwebtoken::decode::<serde_json::Value>(
        token,
        &jsonwebtoken::DecodingKey::from_secret(b"hello"),
        &validation,
    ) {
        Ok(data) => {
            match (data.claims.get("sub").and_then(|v| v.as_str()), data.claims.get("exp").and_then(|v| v.as_u64())) {
                (Some(sub), Some(exp)) => Ok(Claims { sub: sub.to_string(), exp }),
                _ => Err("claim missing from token".to_string()),
            }
        },
        Err(e) => Err(e.to_string()),
    }
}

/// The validity rule: claims expiring at `exp` are good at `now` exactly
/// when `now` lies before `exp`.
pub open spec fn claims_valid_at(exp: u64, now: u64) -> bool {
    now < exp
}

impl Claims {
    pub fn new(sub: String, exp: u64) -> (c: Claims)
        ensures
            c.sub == sub,
            c.exp == exp,
    {
        Claims { sub, exp }
    }

    /// Issue a token for `sub` at instant `now`, good for the fixed validity
    /// window.
    pub fn encode_req(sub: &str, now: u64) -> (r: Result<String, AppError>)
        requires
            now + TOKEN_VALIDITY_SECS <= u64::MAX,
        ensures
            r is Ok,
            r matches Ok(t) ==> t@ == token_of(sub@, (now + TOKEN_VALIDITY_SECS) as u64)
                && claims_in(t@) == Some((sub@, (now + TOKEN_VALIDITY_SECS) as u64)),
    {
        match jwt_encode(sub, now + TOKEN_VALIDITY_SECS) {
            Ok(t) => Ok(t),
            Err(cause) => {
                proof {
                    assert(false);
                }
                Err(
                    AppError {
                        cause: Some(cause),
                        message: Some("JWT Encoding Error".to_owned()),
                        error_type: AppErrorType::JWTParsingError,
                    },
                )
            },
        }
    }

    /// Check a presented token at instant `now`: the claims come back
    /// exactly when the token is genuine and not yet expired. A failed check
    /// is an invalid credential, answered with an authorization-denied
    /// response.
    pub fn decode_req(token: &str, now: u64) -> (r: Result<Claims, AppError>)
        ensures
            r matches Ok(c) ==> claims_in(token@) == Some((c.sub@, c.exp)) && claims_valid_at(
                c.exp,
                now,
            ),
            claims_in(token@) matches Some(p) ==> (claims_valid_at(p.1, now) ==> (r matches Ok(c)
                && c.sub@ == p.0 && c.exp == p.1)),
            r matches Err(e) ==> e.error_type == AppErrorType::JWtTokenError,
    {
        match jwt_decode(token) {
            Ok(claims) => {
                if now < claims.exp {
                    Ok(claims)
                } else {
                    Err(
                        AppError {
                            cause: Some("token expired".to_owned()),
                            message: Some("JWT Decoding Error".to_owned()),
                            error_type: AppErrorType::JWtTokenError,
                        },
                    )
                }
            },
            Err(cause) => Err(
                AppError {
                    cause: Some(cause),
                    message: Some("JWT Decoding Error".to_owned()),
                    error_type: AppErrorType::JWtTokenError,
                },
            ),
        }
    }
}

/// Law: a token issued at `now` is valid immediately and for the whole fixed
/// window, and is no longer valid at any instant at or past its expiry.
pub proof fn law_validity_window(now: u64, later: u64)
    requires
        now + TOKEN_VALIDITY_SECS <= u64::MAX,
    ensures
        claims_valid_at((now + TOKEN_VALIDITY_SECS) as u64, now),
        later < now + TOKEN_VALIDITY_SECS ==> claims_valid_at(
            (now + TOKEN_VALIDITY_SECS) as u64,
            later,
        ),
        later >= now + TOKEN_VALIDITY_SECS ==> !claims_valid_at(
            (now + TOKEN_VALIDITY_SECS) as u64,
            later,
        ),
{
}

} // verus!
