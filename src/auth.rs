//! Verification of a caller's signed token.
use vstd::prelude::*;
use crate::rejection::Rejection;

verus! {

#[verifier::external_type_specification]
#[verifier::external_body]
pub struct ExDecodingKey(jsonwebtoken::DecodingKey);

/// Relies on `jsonwebtoken::DecodingKey::from_rsa_pem`: loads an RSA public
/// key from PEM text; `None` where that fails (the failure's detail is not
/// used).
#[verifier::external_body]
fn rsa_public_key(pem: &[u8]) -> (r: Option<jsonwebtoken::DecodingKey>) {
    jsonwebtoken::DecodingKey::from_rsa_pem(pem).ok()
}

/// Relies on `jsonwebtoken::decode` with RS256 and the default validation,
/// which checks the signature and the expiry against the current time: the
/// `sub` claim of a token that passes, when it holds a string; `None` for any
/// other token. The outcome depends on the clock, so nothing is promised of it.
#[verifier::external_body]
fn decode_subject(token: &str, key: &jsonwebtoken::DecodingKey) -> (r: Option<String>) {
    let validation = jsonwebtoken::Validation::new(jsonwebtoken::Algorithm::RS256);
    jsonwebtoken::decode::<std::collections::HashMap<String, serde_json::Value>>(
        token,
        key,
        &validation,
    ).ok().and_then(|data| data.claims.get("sub").and_then(|v| v.as_str()).map(|s| s.to_string()))
}

/// The actor that a verification outcome names: the subject of a token that
/// verified and carries one; any other outcome is an invalid token.
pub fn actor_from(subject: Option<String>) -> (r: Result<String, Rejection>)
    ensures
        match subject {
            Some(s) => r == Ok::<String, Rejection>(s),
            None => r == Err::<String, Rejection>(Rejection::AuthInvalid),
        },
{
    match subject {
        Some(s) => Ok(s),
        None => Err(Rejection::AuthInvalid),
    }
}

/// The actor that `token` names, if it verifies against `public_key` (PEM).
/// A key that does not load, a token that does not verify or one without a
/// subject is an invalid token.
pub fn authenticate(token: &String, public_key: &Vec<u8>) -> (r: Result<String, Rejection>)
    ensures
        r.is_err() ==> r == Err::<String, Rejection>(Rejection::AuthInvalid),
{
    match rsa_public_key(public_key.as_slice()) {
        Some(key) => actor_from(decode_subject(token.as_str(), &key)),
        None => Err(Rejection::AuthInvalid),
    }
}

} // verus!
