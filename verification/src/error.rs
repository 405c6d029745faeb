use vstd::prelude::*;
use vstd::string::StringExecFns;

verus! {

/// `parts` joined with `sep` between consecutive elements.
pub open spec fn join_spec(parts: Seq<Seq<char>>, sep: Seq<char>) -> Seq<char>
    decreases parts.len(),
{
    if parts.len() == 0 {
        Seq::empty()
    } else if parts.len() == 1 {
        parts.last()
    } else {
        join_spec(parts.drop_last(), sep) + sep + parts.last()
    }
}

/// Joins the strings of `parts` with `sep` between consecutive elements.
pub fn join(parts: &Vec<String>, sep: &str) -> (r: String)
    ensures
        r@ == join_spec(parts.deep_view(), sep@),
{
    let ghost dv = parts.deep_view();
    let mut res = String::new();
    let mut i: usize = 0;
    while i < parts.len()
        invariant
            i <= parts@.len(),
            dv == parts.deep_view(),
            dv.len() == parts@.len(),
            res@ == join_spec(dv.take(i as int), sep@),
        decreases parts@.len() - i,
    {
        if i > 0 {
            res.append(sep);
        }
        res.append(parts[i].as_str());
        proof {
            assert(dv.take(i as int + 1).drop_last() =~= dv.take(i as int));
            assert(dv.take(i as int + 1).last() == parts@[i as int]@);
            if i == 0 {
                assert(res@ =~= join_spec(dv.take(i as int + 1), sep@));
            }
        }
        i = i + 1;
    }
    proof {
        assert(dv.take(parts@.len() as int) =~= dv);
    }
    res
}

/// Why a token failed validation: the signature check or a claim rule.
/// Claim-rule failures carry one human-readable entry for each rule that
/// failed, in rule order; the first entry names the first failing rule.
#[derive(Debug, PartialEq, Eq)]
pub enum ValidationFailure {
    /// The token does not consist of three `.`-separated segments.
    InvalidComponents,
    /// A token segment held invalid base64 data.
    InvalidBase64,
    /// The key material of the selected JWK could not be decoded.
    InvalidJwk,
    /// The cryptographic signature check failed (forged or corrupted
    /// signature, or the wrong key).
    InvalidSignature,
    /// A cryptographic operation failed; the payload describes it.
    CryptoError(String),
    /// A token segment held invalid JSON; the payload describes it.
    JsonError(String),
    /// One or more claim validation rules failed, each described by one
    /// entry, in rule order.
    InvalidClaims(Vec<String>),
}

impl ValidationFailure {
    /// The descriptive message of this failure.
    pub open spec fn message_spec(&self) -> Seq<char> {
        match self {
            ValidationFailure::InvalidComponents => "Invalid number of token components in JWT"@,
            ValidationFailure::InvalidBase64 => "Invalid Base64 encoding in JWT"@,
            ValidationFailure::InvalidJwk => "JWK decoding failed"@,
            ValidationFailure::InvalidSignature => "JWT signature validation failed"@,
            ValidationFailure::CryptoError(detail) => "SSL error: "@ + detail@,
            ValidationFailure::JsonError(detail) => "JSON error: "@ + detail@,
            ValidationFailure::InvalidClaims(errs) => "Invalid claims: "@ + join_spec(
                errs.deep_view(),
                ", "@,
            ),
        }
    }

    pub fn message(&self) -> (m: String)
        ensures
            m@ == self.message_spec(),
    {
        match self {
            ValidationFailure::InvalidComponents => "Invalid number of token components in JWT".to_owned(),
            ValidationFailure::InvalidBase64 => "Invalid Base64 encoding in JWT".to_owned(),
            ValidationFailure::InvalidJwk => "JWK decoding failed".to_owned(),
            ValidationFailure::InvalidSignature => "JWT signature validation failed".to_owned(),
            ValidationFailure::CryptoError(detail) => {
                let mut m = "SSL error: ".to_owned();
                m.append(detail.as_str());
                m
            },
            ValidationFailure::JsonError(detail) => {
                let mut m = "JSON error: ".to_owned();
                m.append(detail.as_str());
                m
            },
            ValidationFailure::InvalidClaims(errs) => {
                let mut m = "Invalid claims: ".to_owned();
                let joined = join(errs, ", ");
                m.append(joined.as_str());
                m
            },
        }
    }
}

/// The error taxonomy of the verification pipeline. Every failure is surfaced
/// to the caller as one of these variants; no step is retried.
#[derive(Debug, PartialEq, Eq)]
pub enum Error {
    /// The JWKS endpoint was unreachable or returned an unparsable body.
    JWKSFetchError,
    /// The token's header segment is malformed or carries no `kid` field.
    TokenKidDecodeError,
    /// No key in the fetched JWKS matches the token's `kid`.
    KeyNotFoundError,
    /// The signature did not verify, or a validation rule failed; the payload
    /// identifies the failing check.
    ValidationError(ValidationFailure),
    /// The raw claims did not fit the caller's target type; the payload
    /// describes the mismatch.
    DeserializationError(String),
    /// The inbound request lacked a usable bearer header (adapter layer).
    InvalidTokenHeader,
}

impl Error {
    /// The HTTP status code this error maps to: 401 for header/auth errors,
    /// 403 for fetch, key-lookup, validation and deserialization errors.
    pub open spec fn status_code_spec(&self) -> u16 {
        match self {
            Error::InvalidTokenHeader => 401u16,
            _ => 403u16,
        }
    }

    pub fn status_code(&self) -> (code: u16)
        ensures
            code == self.status_code_spec(),
    {
        match self {
            Error::DeserializationError(_)
            | Error::TokenKidDecodeError
            | Error::KeyNotFoundError
            | Error::ValidationError(_)
            | Error::JWKSFetchError => 403,
            _ => 401,
        }
    }

    /// The short human-readable title of this error.
    pub open spec fn title_spec(&self) -> Seq<char> {
        match self {
            Error::DeserializationError(_) => "Deserialization Error"@,
            Error::TokenKidDecodeError => "Invalid token kid"@,
            Error::KeyNotFoundError => "Key not found"@,
            Error::ValidationError(_) => "Invalid Token"@,
            Error::JWKSFetchError => "JWKS fetch error"@,
            Error::InvalidTokenHeader => "Internal Server Error"@,
        }
    }

    pub fn title(&self) -> (t: &'static str)
        ensures
            t@ == self.title_spec(),
    {
        match self {
            Error::DeserializationError(_) => "Deserialization Error",
            Error::TokenKidDecodeError => "Invalid token kid",
            Error::KeyNotFoundError => "Key not found",
            Error::ValidationError(_) => "Invalid Token",
            Error::JWKSFetchError => "JWKS fetch error",
            Error::InvalidTokenHeader => "Internal Server Error",
        }
    }

    /// The descriptive message of this error.
    pub open spec fn message_spec(&self) -> Seq<char> {
        match self {
            Error::JWKSFetchError => "Failed to fetch JWKS"@,
            Error::TokenKidDecodeError => "Failed to decode token kid"@,
            Error::KeyNotFoundError => "Specified key not found in set"@,
            Error::ValidationError(failure) => failure.message_spec(),
            Error::DeserializationError(detail) => "Failed to deserialize json: "@ + detail@,
            Error::InvalidTokenHeader => "Invalid authorization header"@,
        }
    }

    pub fn message(&self) -> (m: String)
        ensures
            m@ == self.message_spec(),
    {
        match self {
            Error::JWKSFetchError => "Failed to fetch JWKS".to_owned(),
            Error::TokenKidDecodeError => "Failed to decode token kid".to_owned(),
            Error::KeyNotFoundError => "Specified key not found in set".to_owned(),
            Error::ValidationError(failure) => failure.message(),
            Error::DeserializationError(detail) => {
                let mut m = "Failed to deserialize json: ".to_owned();
                m.append(detail.as_str());
                m
            },
            Error::InvalidTokenHeader => "Invalid authorization header".to_owned(),
        }
    }
}

/// The body of an HTTP error response, built from an `Error` for direct
/// serialization by the adapter layer.
#[derive(Debug, PartialEq, Eq)]
pub struct ErrorBody {
    pub title: String,
    pub message: String,
    pub status_code: u16,
}

impl ErrorBody {
    pub fn from_error(error: Error) -> (body: ErrorBody)
        ensures
            body.title@ == error.title_spec(),
            body.message@ == error.message_spec(),
            body.status_code == error.status_code_spec(),
    {
        ErrorBody {
            title: error.title().to_owned(),
            message: error.message(),
            status_code: error.status_code(),
        }
    }
}

} // verus!
