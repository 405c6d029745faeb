use vstd::prelude::*;

use crate::error::ValidationFailure;
use crate::Validation;

verus! {

// The cryptographic work of the pipeline is done by `alcoholic_jwt`: parsing
// a JWKS document, reading a token's `kid`, and verifying a token against a
// key. Its types are opaque here; what the contracts need of them is named
// below and stated on the wrappers that make the calls.

#[verifier::external_type_specification]
#[verifier::external_body]
pub struct ExJwks(alcoholic_jwt::JWKS);

#[verifier::external_type_specification]
#[verifier::external_body]
pub struct ExJwk(alcoholic_jwt::JWK);

#[verifier::external_type_specification]
#[verifier::external_body]
pub struct ExValidationError(alcoholic_jwt::ValidationError);

/// The key IDs of the keys a JWKS holds.
pub uninterp spec fn jwks_kids(jwks: alcoholic_jwt::JWKS) -> Set<Seq<char>>;

/// What `serde_json::from_str::<JWKS>` yields on a body: `None` when the body
/// is not a JWKS document, otherwise the key IDs of the parsed set.
pub uninterp spec fn parsed_jwks_kids(body: Seq<char>) -> Option<Set<Seq<char>>>;

/// What `alcoholic_jwt::token_kid` yields on a token: `None` when the header
/// segment cannot be decoded, otherwise the `kid` field, if present.
pub uninterp spec fn token_kid_of(token: Seq<char>) -> Option<Option<Seq<char>>>;

/// What a successful validation returns: the claims of the token's payload
/// segment, as JSON text. A function of the token alone.
pub uninterp spec fn claims_json_of(token: Seq<char>) -> Seq<char>;

/// The view of an optional string.
pub open spec fn opt_str_view(o: Option<String>) -> Option<Seq<char>> {
    match o {
        Option::None => Option::None,
        Option::Some(s) => Option::Some(s@),
    }
}

/// Relies on `serde_json::from_str::<alcoholic_jwt::JWKS>`: parsing is a
/// function of the body text alone, and succeeds exactly on JWKS documents;
/// a parse error is converted to its display text.
#[verifier::external_body]
pub(crate) fn parse_jwks_body(body: &str) -> (r: Result<alcoholic_jwt::JWKS, String>)
    ensures
        (r is Ok) == (parsed_jwks_kids(body@) is Some),
        r is Ok ==> parsed_jwks_kids(body@) == Some(jwks_kids(r->Ok_0)),
{
    serde_json::from_str(body).map_err(|e| e.to_string())
}

/// Relies on `alcoholic_jwt::token_kid`: the result is a function of the
/// token text alone; errors are converted to their display text.
#[verifier::external_body]
pub(crate) fn read_token_kid(token: &str) -> (r: Result<Option<String>, String>)
    ensures
        (r is Err) == (token_kid_of(token@) is None),
        r is Ok ==> token_kid_of(token@) == Some(opt_str_view(r->Ok_0)),
{
    alcoholic_jwt::token_kid(token).map_err(|e| e.to_string())
}

/// Relies on `alcoholic_jwt::JWKS::find`: it returns the first key whose
/// `kid` equals the given one, and `None` exactly when no key carries it.
#[verifier::external_body]
pub(crate) fn find_key<'a>(jwks: &'a alcoholic_jwt::JWKS, kid: &str) -> (r: Option<
    &'a alcoholic_jwt::JWK,
>)
    ensures
        (r is Some) == jwks_kids(*jwks).contains(kid@),
{
    jwks.find(kid)
}

/// Relies on `alcoholic_jwt::validate`: it verifies the token's signature
/// against the key before it evaluates any claim rule; when only claim rules
/// fail, each failing rule contributes exactly one entry, in rule order, to
/// the reported list. On success it returns
/// exactly the claims decoded from the token's payload segment, here
/// serialized back to JSON text with `serde_json::to_string`, which never
/// fails on a claims value. Whether it succeeds depends on the key material
/// and, through the `NotExpired` rule, on the wall clock, so no outcome is
/// promised. It reads the wall clock and panics only if that clock lies
/// before the UNIX epoch.
#[verifier::external_body]
pub(crate) fn validate_token(
    token: &str,
    jwk: &alcoholic_jwt::JWK,
    validations: &Vec<Validation>,
) -> (r: Result<String, ValidationFailure>)
    ensures
        r is Ok ==> r->Ok_0@ == claims_json_of(token@),
        r matches Err(ValidationFailure::InvalidClaims(errs)) ==> 1 <= errs@.len() <= validations@.len(),
{
    let rules = validations
        .iter()
        .map(|v| match v {
            Validation::Issuer(s) => alcoholic_jwt::Validation::Issuer(s.clone()),
            Validation::Audience(s) => alcoholic_jwt::Validation::Audience(s.clone()),
            Validation::SubjectPresent => alcoholic_jwt::Validation::SubjectPresent,
            Validation::NotExpired => alcoholic_jwt::Validation::NotExpired,
        })
        .collect();
    match alcoholic_jwt::validate(token, jwk, rules) {
        Ok(valid) => Ok(serde_json::to_string(&valid.claims).expect("claims are a JSON value")),
        Err(e) => Err(failure_of(e)),
    }
}

/// Parses a JWKS document out of the body text a JWKS endpoint returned.
/// A body that is not a JWKS document is rejected as a fetch error.
pub fn parse_jwks(body: &str) -> (r: Result<alcoholic_jwt::JWKS, crate::error::Error>)
    ensures
        (r is Ok) == (parsed_jwks_kids(body@) is Some),
        r is Ok ==> parsed_jwks_kids(body@) == Some(jwks_kids(r->Ok_0)),
        r is Err ==> r->Err_0 == crate::error::Error::JWKSFetchError,
{
    match parse_jwks_body(body) {
        Ok(jwks) => Ok(jwks),
        Err(_) => Err(crate::error::Error::JWKSFetchError),
    }
}

/// Relies on the variants of `alcoholic_jwt::ValidationError`, carried over
/// one for one; payloads that are foreign error values are converted to their
/// display text.
#[verifier::external_body]
pub(crate) fn failure_of(e: alcoholic_jwt::ValidationError) -> (r: ValidationFailure) {
    match e {
        alcoholic_jwt::ValidationError::InvalidComponents => ValidationFailure::InvalidComponents,
        alcoholic_jwt::ValidationError::InvalidBase64(_) => ValidationFailure::InvalidBase64,
        alcoholic_jwt::ValidationError::InvalidJWK => ValidationFailure::InvalidJwk,
        alcoholic_jwt::ValidationError::InvalidSignature => ValidationFailure::InvalidSignature,
        alcoholic_jwt::ValidationError::OpenSSL(err) => ValidationFailure::CryptoError(err.to_string()),
        alcoholic_jwt::ValidationError::JSON(err) => ValidationFailure::JsonError(err.to_string()),
        alcoholic_jwt::ValidationError::InvalidClaims(errs) => ValidationFailure::InvalidClaims(
            errs.iter().map(|s| s.to_string()).collect(),
        ),
    }
}

} // verus!
