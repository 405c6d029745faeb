use vstd::prelude::*;
use vstd::string::StrSliceExecFns;
use vstd::string::StringExecFns;

verus! {

/// True when the string ends with a `/` character.
pub open spec fn has_trailing_slash(s: Seq<char>) -> bool {
    s.len() > 0 && s.last() == '/'
}

/// The JWKS endpoint URL for an issuer: the well-known document path is
/// appended with exactly one `/` between issuer and path.
pub open spec fn jwks_uri_spec(issuer: Seq<char>) -> Seq<char> {
    if has_trailing_slash(issuer) {
        issuer + ".well-known/jwks.json"@
    } else {
        issuer + "/.well-known/jwks.json"@
    }
}

/// Builds the URL of the JWKS document published by `issuer`.
pub fn jwks_uri(issuer: &str) -> (res: String)
    ensures
        res@ == jwks_uri_spec(issuer@),
{
    let n = issuer.unicode_len();
    let mut res = issuer.to_owned();
    if n > 0 && issuer.get_char(n - 1) == '/' {
        res.append(".well-known/jwks.json");
    } else {
        res.append("/.well-known/jwks.json");
    }
    res
}

/// An issuer given with a trailing slash is fetched from the same URL as the
/// same issuer given without one: no doubled slash appears in the result.
pub proof fn lemma_trailing_slash_same_uri(issuer: Seq<char>)
    requires
        !has_trailing_slash(issuer),
    ensures
        jwks_uri_spec(issuer.push('/')) == jwks_uri_spec(issuer),
{
    reveal_strlit(".well-known/jwks.json");
    reveal_strlit("/.well-known/jwks.json");
    assert(issuer.push('/').last() == '/');
    assert(issuer.push('/') + ".well-known/jwks.json"@ =~= issuer + "/.well-known/jwks.json"@);
}

} // verus!
