//! Signed session tokens: stateless credentials carrying a subject and an
//! expiry instant, signed with the process-wide secret.

use vstd::prelude::*;
use crate::masked_token::MaskedToken;

verus! {

/// How long a session token stays valid, in seconds from issuance.
pub const SESSION_TOKEN_LIFETIME_SECS: u64 = 600;

/// The signed token that `jsonwebtoken::encode` produces for this secret,
/// subject and expiry. Deterministic: the default header, the claim set and
/// the signature are functions of these three values alone.
pub uninterp spec fn jwt_of(secret: Seq<char>, sub: Seq<char>, exp: u64) -> Seq<char>;

/// The claims that `jsonwebtoken::decode` recovers from a token under this
/// secret with signature checking alone: `None` when the token is malformed
/// or its signature does not verify, otherwise the subject and expiry.
/// Deterministic: a function of the secret and the token alone.
pub uninterp spec fn jwt_claims_of(secret: Seq<char>, token: Seq<char>) -> Option<(Seq<char>, u64)>;

/// Relies on jsonwebtoken::encode with the default (HS256) header: the token
/// is a function of the secret and the claims alone, signing with a symmetric
/// secret cannot fail, and jsonwebtoken::decode under the same secret
/// recovers exactly the claims that were encoded.
#[verifier::external_body]
pub(crate) fn encode_jwt(secret: &str, sub: &str, exp: u64) -> (r: String)
    ensures
        r@ == jwt_of(secret@, sub@, exp),
        jwt_claims_of(secret@, r@) == Some((sub@, exp)),
{
    let mut claims = serde_json::Map::new();
    claims.insert("sub".to_string(), serde_json::Value::String(sub.to_string()));
    claims.insert("exp".to_string(), serde_json::Value::from(exp));
    let key = jsonwebtoken::EncodingKey::from_secret(secret.as_bytes());
    jsonwebtoken::encode(&jsonwebtoken::Header::default(), &serde_json::Value::Object(claims), &key)
        .expect("signing with a symmetric secret cannot fail")
}

/// Relies on jsonwebtoken::decode (HS256) with expiry validation switched
/// off: it verifies structure and signature only, so the outcome is a
/// function of the secret and the token alone, and never a panic.
#[verifier::external_body]
pub(crate) fn decode_jwt(secret: &str, token: &str) -> (r: Option<(String, u64)>)
    ensures
        r is Some <==> jwt_claims_of(secret@, token@) is Some,
        r matches Some(c) ==> jwt_claims_of(secret@, token@) == Some((c.0@, c.1)),
{
    let mut validation = jsonwebtoken::Validation::default();
    validation.validate_exp = false;
    validation.required_spec_claims.clear();
    let key = jsonwebtoken::DecodingKey::from_secret(secret.as_bytes());
    let data = match jsonwebtoken::decode::<serde_json::Value>(token, &key, &validation) {
        Ok(d) => d,
        Err(_) => return None,
    };
    let sub = data.claims.get("sub")?.as_str()?.to_string();
    let exp = data.claims.get("exp")?.as_u64()?;
    Some((sub, exp))
}

/// Mints the session token for `sub` at instant `now` (seconds since the
/// epoch): a signed claim set expiring `SESSION_TOKEN_LIFETIME_SECS` later.
pub fn generate_session_token(secret: &MaskedToken, sub: &str, now: u64) -> (r: String)
    requires
        now + SESSION_TOKEN_LIFETIME_SECS <= u64::MAX,
    ensures
        r@ == jwt_of(secret.secret(), sub@, (now + SESSION_TOKEN_LIFETIME_SECS) as u64),
        jwt_claims_of(secret.secret(), r@)
            == Some((sub@, (now + SESSION_TOKEN_LIFETIME_SECS) as u64)),
{
    let exp = now + SESSION_TOKEN_LIFETIME_SECS;
    encode_jwt(secret.as_str(), sub, exp)
}

} // verus!
