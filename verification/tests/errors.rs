use auth0_jwt::error::join;
use auth0_jwt::error::Error;
use auth0_jwt::error::ErrorBody;
use auth0_jwt::error::ValidationFailure;

#[test]
fn join_empty_and_singleton_and_many() {
    assert_eq!(join(&vec![], ", "), "");
    assert_eq!(join(&vec!["a".to_string()], ", "), "a");
    assert_eq!(join(&vec!["a".to_string(), "b".to_string(), "c".to_string()], ", "), "a, b, c");
}

#[test]
fn status_codes_follow_taxonomy() {
    assert_eq!(Error::JWKSFetchError.status_code(), 403);
    assert_eq!(Error::TokenKidDecodeError.status_code(), 403);
    assert_eq!(Error::KeyNotFoundError.status_code(), 403);
    assert_eq!(Error::ValidationError(ValidationFailure::InvalidSignature).status_code(), 403);
    assert_eq!(Error::DeserializationError("x".to_string()).status_code(), 403);
    assert_eq!(Error::InvalidTokenHeader.status_code(), 401);
}

#[test]
fn titles_name_each_error() {
    assert_eq!(Error::JWKSFetchError.title(), "JWKS fetch error");
    assert_eq!(Error::TokenKidDecodeError.title(), "Invalid token kid");
    assert_eq!(Error::KeyNotFoundError.title(), "Key not found");
    assert_eq!(Error::ValidationError(ValidationFailure::InvalidSignature).title(), "Invalid Token");
    assert_eq!(Error::DeserializationError("x".to_string()).title(), "Deserialization Error");
    assert_eq!(Error::InvalidTokenHeader.title(), "Internal Server Error");
}

#[test]
fn messages_describe_each_error() {
    assert_eq!(Error::JWKSFetchError.message(), "Failed to fetch JWKS");
    assert_eq!(Error::TokenKidDecodeError.message(), "Failed to decode token kid");
    assert_eq!(Error::KeyNotFoundError.message(), "Specified key not found in set");
    assert_eq!(
        Error::DeserializationError("missing field".to_string()).message(),
        "Failed to deserialize json: missing field"
    );
    assert_eq!(Error::InvalidTokenHeader.message(), "Invalid authorization header");
}

#[test]
fn validation_failure_messages() {
    assert_eq!(
        ValidationFailure::InvalidSignature.message(),
        "JWT signature validation failed"
    );
    assert_eq!(
        ValidationFailure::InvalidComponents.message(),
        "Invalid number of token components in JWT"
    );
    assert_eq!(
        ValidationFailure::InvalidClaims(vec![
            "'iss' claim does not match".to_string(),
            "token has expired".to_string(),
        ])
        .message(),
        "Invalid claims: 'iss' claim does not match, token has expired"
    );
}

#[test]
fn error_body_carries_title_message_and_status() {
    let body = ErrorBody::from_error(Error::KeyNotFoundError);
    assert_eq!(body.title, "Key not found");
    assert_eq!(body.message, "Specified key not found in set");
    assert_eq!(body.status_code, 403);

    let body = ErrorBody::from_error(Error::InvalidTokenHeader);
    assert_eq!(body.title, "Internal Server Error");
    assert_eq!(body.message, "Invalid authorization header");
    assert_eq!(body.status_code, 401);
}
