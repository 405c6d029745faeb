use auth0_jwt::util::jwks_uri;

#[test]
fn test_jwks_uri() {
    let result = jwks_uri("https://acme-website.org");
    assert_eq!(result, "https://acme-website.org/.well-known/jwks.json");
}

#[test]
fn test_jwks_uri_with_double_slash() {
    let result = jwks_uri("https://acme-website.org/");
    assert_eq!(result, "https://acme-website.org/.well-known/jwks.json");
}

#[test]
fn trailing_slash_resolves_to_same_uri() {
    assert_eq!(jwks_uri("https://acme.org/"), jwks_uri("https://acme.org"));
    assert_eq!(jwks_uri("https://acme.org"), "https://acme.org/.well-known/jwks.json");
}
