//! Session claims and their signed compact form (a JWT signed with HS256
//! under the secret material).
//!
//! Expiry is carried, not enforced: a token keeps verifying after the time in
//! its `exp` claim. Callers that want expiry compare `exp` with the clock.

use vstd::prelude::*;
use vstd::pervasive::unreached;
use crate::secret::SecretKey;
use crate::token::opt_string_view;

verus! {

/// What a session token asserts about its bearer.
#[derive(Debug, Clone)]
pub struct Claims {
    /// The subject: the user's email.
    pub sub: String,
    /// The expiry, in seconds since the Unix epoch.
    pub exp: u64,
    /// Whether the bearer is an administrator.
    pub is_admin: bool,
}

/// The HS256-signed compact token, with the default header, whose payload
/// is the object `{sub, exp, is_admin}`, under the secret `key`.
pub uninterp spec fn jwt_signed(sub: Seq<char>, exp: u64, is_admin: bool, key: Seq<u8>) -> Seq<char>;

#[verifier::external_type_specification]
#[verifier::external_body]
pub struct ExJwtError(jsonwebtoken::errors::Error);

/// What decoding `token` under `key` gives: `None` where the signature does
/// not verify or the token is malformed; otherwise each claim of the payload,
/// `None` where it is absent or of another JSON type.
pub uninterp spec fn jwt_decoded(token: Seq<char>, key: Seq<u8>) -> Option<(Option<Seq<char>>, Option<u64>, Option<bool>)>;

/// Relies on `jsonwebtoken::encode` with `Header::default()` (HS256) and
/// `EncodingKey::from_secret`: the key family matches the algorithm and a
/// JSON map always serialises, so it succeeds; the token is a function of
/// the payload and key.
#[verifier::external_body]
fn jwt_encode(sub: &str, exp: u64, is_admin: bool, key: &[u8]) -> (r: Result<String, jsonwebtoken::errors::Error>)
    ensures
        r is Ok,
        r matches Ok(t) ==> t@ == jwt_signed(sub@, exp, is_admin, key@),
{
    let mut payload = serde_json::Map::new();
    payload.insert("sub".to_string(), serde_json::Value::from(sub));
    payload.insert("exp".to_string(), serde_json::Value::from(exp));
    payload.insert("is_admin".to_string(), serde_json::Value::from(is_admin));
    let key = jsonwebtoken::EncodingKey::from_secret(key);
    jsonwebtoken::encode(&jsonwebtoken::Header::default(), &serde_json::Value::Object(payload), &key)
}

/// Relies on `jsonwebtoken::decode` with HS256 validation (expiry not
/// checked, no audience) and `DecodingKey::from_secret`: the result is a
/// function of token and key; a token is accepted where its signature
/// verifies under the key and it carries `exp`, so a token that `encode`
/// signed under the key is accepted, with the payload that was signed. Each
/// claim is `None` where the payload lacks it or holds it with another JSON
/// type.
#[verifier::external_body]
fn jwt_decode(token: &str, key: &[u8]) -> (r: Result<(Option<String>, Option<u64>, Option<bool>), jsonwebtoken::errors::Error>)
    ensures
        r matches Ok(c) ==> jwt_decoded(token@, key@) == Some((opt_string_view(c.0), c.1, c.2)),
        r is Err ==> jwt_decoded(token@, key@) is None,
        r matches Ok(c) ==> forall|sub: Seq<char>, exp: u64, is_admin: bool|
            token@ == #[trigger] jwt_signed(sub, exp, is_admin, key@) ==> opt_string_view(c.0) == Some(sub)
                && c.1 == Some(exp) && c.2 == Some(is_admin),
        r is Err ==> forall|sub: Seq<char>, exp: u64, is_admin: bool|
            token@ != #[trigger] jwt_signed(sub, exp, is_admin, key@),
{
    let mut validation = jsonwebtoken::Validation::default();
    validation.validate_exp = false;
    let key = jsonwebtoken::DecodingKey::from_secret(key);
    let c = jsonwebtoken::decode::<serde_json::Value>(token, &key, &validation)?.claims;
    Ok((c["sub"].as_str().map(String::from), c["exp"].as_u64(), c["is_admin"].as_bool()))
}

/// Why a token could not be read back.
#[derive(Debug, Clone, Copy, PartialEq, Eq, Structural)]
pub enum ClaimsError {
    /// Bad signature, malformed token, or missing claims.
    Verification,
}

/// The plain values of claims.
pub open spec fn claims_view(c: Claims) -> (Seq<char>, u64, bool) {
    (c.sub@, c.exp, c.is_admin)
}

/// The signed token of `claims` under `key`.
pub open spec fn claims_token(claims: Claims, key: Seq<u8>) -> Seq<char> {
    jwt_signed(claims.sub@, claims.exp, claims.is_admin, key)
}

/// The claims that `token` verifies to under `key`, where it verifies and
/// carries all three.
pub open spec fn decoded_claims(token: Seq<char>, key: Seq<u8>) -> Option<(Seq<char>, u64, bool)> {
    match jwt_decoded(token, key) {
        Some((Some(sub), Some(exp), Some(is_admin))) => Some((sub, exp, is_admin)),
        _ => None,
    }
}

/// Signs `claims` with `key`.
pub fn encode_claims(claims: &Claims, key: &SecretKey) -> (r: String)
    ensures
        r@ == claims_token(*claims, key@),
{
    match jwt_encode(claims.sub.as_str(), claims.exp, claims.is_admin, key.as_bytes()) {
        Ok(t) => t,
        Err(_) => unreached(),
    }
}

/// Verifies `token` under `key` and reads its claims. A token made by
/// [`encode_claims`] under the same key reads back as the claims it was made
/// from.
pub fn decode_claims(token: &str, key: &SecretKey) -> (r: Result<Claims, ClaimsError>)
    ensures
        match decoded_claims(token@, key@) {
            Some(v) => r matches Ok(c) && claims_view(c) == v,
            None => r == Err::<Claims, ClaimsError>(ClaimsError::Verification),
        },
        forall|sub: Seq<char>, exp: u64, is_admin: bool|
            token@ == #[trigger] jwt_signed(sub, exp, is_admin, key@) ==> (r matches Ok(c) && claims_view(c) == (
            sub,
            exp,
            is_admin,
        )),
{
    match jwt_decode(token, key.as_bytes()) {
        Ok((Some(sub), Some(exp), Some(is_admin))) => Ok(Claims { sub, exp, is_admin }),
        _ => Err(ClaimsError::Verification),
    }
}

} // verus!
