use auth0_jwt::error::Error;
use auth0_jwt::get_claims;
use auth0_jwt::jwks::parse_jwks;
use auth0_jwt::resolve_key;
use auth0_jwt::Config;

use base64::engine::general_purpose::URL_SAFE_NO_PAD;
use base64::Engine;

fn b64(data: &str) -> String {
    URL_SAFE_NO_PAD.encode(data.as_bytes())
}

fn unsigned_token(header: &str, payload: &str) -> String {
    format!("{}.{}.{}", b64(header), b64(payload), b64("nosignature"))
}

fn one_key_jwks() -> String {
    // Key material is syntactically valid base64url; the key is never used
    // for signature checks in these tests.
    r#"{"keys":[{"kty":"RSA","alg":"RS256","kid":"abc","n":"AQAB","e":"AQAB"}]}"#.to_string()
}

#[test]
fn parse_jwks_accepts_a_jwks_document() {
    assert!(parse_jwks(&one_key_jwks()).is_ok());
}

#[test]
fn parse_jwks_rejects_a_non_jwks_body() {
    let r = parse_jwks("<html>not json</html>");
    assert!(matches!(r, Err(Error::JWKSFetchError)));
    let r = parse_jwks(r#"{"other":"json"}"#);
    assert!(matches!(r, Err(Error::JWKSFetchError)));
}

#[test]
fn unknown_kid_fails_with_key_not_found() {
    let jwks = parse_jwks(&one_key_jwks()).unwrap();
    let token = unsigned_token(r#"{"alg":"RS256","kid":"xyz"}"#, r#"{"iss":"https://acme.org"}"#);
    let r = get_claims(&token, &jwks, Config::new("https://acme.org"));
    assert!(matches!(r, Err(Error::KeyNotFoundError)));
}

#[test]
fn known_kid_resolves_to_a_key() {
    let jwks = parse_jwks(&one_key_jwks()).unwrap();
    let token = unsigned_token(r#"{"alg":"RS256","kid":"abc"}"#, r#"{"iss":"https://acme.org"}"#);
    assert!(resolve_key(&token, &jwks).is_ok());
}

#[test]
fn token_without_separator_fails_kid_decode() {
    let jwks = parse_jwks(&one_key_jwks()).unwrap();
    let r = get_claims("garbage", &jwks, Config::new("https://acme.org"));
    assert!(matches!(r, Err(Error::TokenKidDecodeError)));
}

#[test]
fn header_that_is_not_json_fails_kid_decode() {
    let jwks = parse_jwks(&one_key_jwks()).unwrap();
    let token = format!("{}.{}.{}", b64("not json"), b64("{}"), b64("sig"));
    let r = get_claims(&token, &jwks, Config::new("https://acme.org"));
    assert!(matches!(r, Err(Error::TokenKidDecodeError)));
}

#[test]
fn header_without_kid_fails_kid_decode() {
    let jwks = parse_jwks(&one_key_jwks()).unwrap();
    let token = unsigned_token(r#"{"alg":"RS256"}"#, r#"{"iss":"https://acme.org"}"#);
    let r = get_claims(&token, &jwks, Config::new("https://acme.org"));
    assert!(matches!(r, Err(Error::TokenKidDecodeError)));
}

#[test]
fn config_new_sets_issuer_and_default_validations() {
    let config = Config::new("https://acme.org");
    assert_eq!(config.issuer, "https://acme.org");
    assert_eq!(config.validations.len(), 2);
    assert!(matches!(&config.validations[0], auth0_jwt::Validation::Issuer(s) if s.as_str() == "https://acme.org"));
    assert!(matches!(&config.validations[1], auth0_jwt::Validation::NotExpired));
}
