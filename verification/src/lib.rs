use vstd::prelude::*;

pub mod error;
pub mod jwks;
pub mod util;

use crate::error::Error;
use crate::error::ValidationFailure;
use crate::jwks::claims_json_of;
use crate::jwks::find_key;
use crate::jwks::jwks_kids;
use crate::jwks::read_token_kid;
use crate::jwks::token_kid_of;
use crate::jwks::validate_token;

verus! {

/// A bearer token string, as handed over by a web-framework adapter after it
/// has read the `Authorization: Bearer` header of an incoming request.
pub struct Token(pub String);

/// A validation rule applied to the claim set of a token after its signature
/// has been verified. Rules are evaluated in order; all must pass.
pub enum Validation {
    /// The token's `iss` claim must equal the given string exactly.
    Issuer(String),
    /// The token's `aud` claim must equal the given string exactly.
    Audience(String),
    /// The token must carry a `sub` claim.
    SubjectPresent,
    /// The token's `exp` claim must lie strictly in the future.
    NotExpired,
}

/// Configuration for one verification call: the expected issuer and the
/// ordered list of validation rules to apply.
pub struct Config {
    pub issuer: String,
    pub validations: Vec<Validation>,
}

impl Config {
    /// Initializes the `Config` with the issuer and the default validations:
    /// the issuer must match and the token must not be expired.
    pub fn new(issuer: &str) -> (c: Config)
        ensures
            c.issuer@ == issuer@,
            c.validations@.len() == 2,
            c.validations@[0] matches Validation::Issuer(s) && s@ == issuer@,
            c.validations@[1] is NotExpired,
    {
        Config {
            issuer: issuer.to_owned(),
            validations: vec![Validation::Issuer(issuer.to_owned()), Validation::NotExpired],
        }
    }
}

/// The `kid` a token resolves to: `None` when the header segment cannot be
/// decoded or carries no `kid` field.
pub open spec fn resolved_kid(token: Seq<char>) -> Option<Seq<char>> {
    match token_kid_of(token) {
        Option::Some(Option::Some(k)) => Option::Some(k),
        _ => Option::None,
    }
}

/// Reads the `kid` out of the token's unverified header and looks the key up
/// in the fetched JWKS. A malformed header or a missing `kid` field is a
/// decode error; a `kid` that no key of the set carries is a lookup error.
pub fn resolve_key<'a>(token: &str, jwks: &'a alcoholic_jwt::JWKS) -> (r: Result<
    &'a alcoholic_jwt::JWK,
    Error,
>)
    ensures
        (r == Err::<&'a alcoholic_jwt::JWK, Error>(Error::TokenKidDecodeError)) <==> resolved_kid(
            token@,
        ) is None,
        (r == Err::<&'a alcoholic_jwt::JWK, Error>(Error::KeyNotFoundError)) <==> (resolved_kid(
            token@,
        ) matches Some(k) && !jwks_kids(*jwks).contains(k)),
        (r is Ok) <==> (resolved_kid(token@) matches Some(k) && jwks_kids(*jwks).contains(k)),
{
    let kid_opt = match read_token_kid(token) {
        Err(_) => return Err(Error::TokenKidDecodeError),
        Ok(o) => o,
    };
    let kid = match kid_opt {
        None => return Err(Error::TokenKidDecodeError),
        Some(k) => k,
    };
    match find_key(jwks, kid.as_str()) {
        None => Err(Error::KeyNotFoundError),
        Some(jwk) => Ok(jwk),
    }
}

/// Verifies the token's signature against `key` and then applies each rule of
/// `validations`, in order. On success the claims of the token's payload are
/// returned as JSON text; claims are never exposed before validation passed.
pub fn validate(token: &str, key: &alcoholic_jwt::JWK, validations: &Vec<Validation>) -> (r: Result<
    String,
    Error,
>)
    ensures
        r is Ok ==> r->Ok_0@ == claims_json_of(token@),
        r is Err ==> r->Err_0 is ValidationError,
        r matches Err(Error::ValidationError(ValidationFailure::InvalidClaims(errs))) ==> 1
            <= errs@.len() <= validations@.len(),
{
    match validate_token(token, key, validations) {
        Ok(claims) => Ok(claims),
        Err(failure) => Err(Error::ValidationError(failure)),
    }
}

/// Returns the claims stored in the given JWT as JSON text, after resolving
/// the signing key in `jwks` and fully validating the token under `config`.
pub fn get_claims(token: &str, jwks: &alcoholic_jwt::JWKS, config: Config) -> (r: Result<
    String,
    Error,
>)
    ensures
        r is Ok ==> r->Ok_0@ == claims_json_of(token@),
        (r == Err::<String, Error>(Error::TokenKidDecodeError)) <==> resolved_kid(token@) is None,
        (r == Err::<String, Error>(Error::KeyNotFoundError)) <==> (resolved_kid(token@) matches Some(
            k,
        ) && !jwks_kids(*jwks).contains(k)),
        (resolved_kid(token@) matches Some(k) && jwks_kids(*jwks).contains(k)) ==> (r is Ok || (
        r is Err && r->Err_0 is ValidationError)),
        r matches Err(Error::ValidationError(ValidationFailure::InvalidClaims(errs))) ==> 1
            <= errs@.len() <= config.validations@.len(),
{
    let key = match resolve_key(token, jwks) {
        Err(e) => return Err(e),
        Ok(k) => k,
    };
    validate(token, key, &config.validations)
}

} // verus!
