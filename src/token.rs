//! Short-lived tokens for the CMS admin API: audience `/admin/`, issued now,
//! expiring five minutes later, signed with HMAC-SHA256 under the admin key.
use vstd::prelude::*;
use crate::hexcode::{decodes_to, from_hex, is_hex_text};

verus! {

/// Seconds from issue to expiry of an admin token.
pub const TOKEN_LIFETIME_SECS: u64 = 300;

/// The audience every admin token names.
pub const ADMIN_AUDIENCE: &'static str = "/admin/";

/// The claims an admin token carries.
#[derive(Clone, Debug)]
pub struct AdminClaims {
    pub aud: String,
    pub iat: u64,
    pub exp: u64,
}

/// Why no token could be made.
#[derive(Clone, Copy, Debug, PartialEq, Eq, Structural)]
pub enum SignError {
    /// The admin secret is not hex text.
    InvalidSecret,
}

/// The compact HS256 token with key id `kid` in its header and claims
/// `aud`, `exp`, `iat`, signed with `key`.
pub uninterp spec fn hs256_token_of(kid: Seq<char>, aud: Seq<char>, iat: u64, exp: u64, key: Seq<u8>) -> Seq<char>;

/// Relies on jsonwebtoken::encode with `Header::new(Algorithm::HS256)` (type
/// "JWT"), the key id set, and `EncodingKey::from_secret(key)`. An HMAC key
/// matches the HS256 family, the header and a string-keyed map always
/// serialise, and HS256 signing always succeeds, so a token always comes
/// back; it depends on these values alone.
#[verifier::external_body]
fn encode_hs256(kid: &str, claims: &AdminClaims, key: &[u8]) -> (r: Option<String>)
    ensures
        r is Some,
        r matches Some(t) ==> t@ == hs256_token_of(kid@, claims.aud@, claims.iat, claims.exp, key@),
{
    let mut body = std::collections::BTreeMap::new();
    body.insert("aud", serde_json::Value::from(claims.aud.as_str()));
    body.insert("exp", serde_json::Value::from(claims.exp));
    body.insert("iat", serde_json::Value::from(claims.iat));
    let mut header = jsonwebtoken::Header::new(jsonwebtoken::Algorithm::HS256);
    header.kid = Some(kid.to_owned());
    jsonwebtoken::encode(&header, &body, &jsonwebtoken::EncodingKey::from_secret(key)).ok()
}

/// The claims of a token issued at `now` (seconds since the Unix epoch).
pub fn admin_claims(now: u64) -> (r: AdminClaims)
    requires
        now + TOKEN_LIFETIME_SECS <= u64::MAX,
    ensures
        r.aud@ == ADMIN_AUDIENCE@,
        r.iat == now,
        r.exp == now + TOKEN_LIFETIME_SECS,
{
    AdminClaims { aud: ADMIN_AUDIENCE.to_owned(), iat: now, exp: now + TOKEN_LIFETIME_SECS }
}

/// Mints a fresh admin token for `admin_id` at time `now`, keyed by the
/// bytes that `hex_secret` spells.
pub fn sign(admin_id: &str, hex_secret: &str, now: u64) -> (r: Result<String, SignError>)
    requires
        now + TOKEN_LIFETIME_SECS <= u64::MAX,
    ensures
        r is Err <==> !is_hex_text(hex_secret@),
        r matches Err(e) ==> e == SignError::InvalidSecret,
        r matches Ok(t) ==> exists|key: Seq<u8>|
            decodes_to(hex_secret@, key) && t@ == hs256_token_of(
                admin_id@,
                ADMIN_AUDIENCE@,
                now,
                (now + TOKEN_LIFETIME_SECS) as u64,
                key,
            ),
{
    let key = match from_hex(hex_secret) {
        Some(k) => k,
        None => return Err(SignError::InvalidSecret),
    };
    let claims = admin_claims(now);
    let token = encode_hs256(admin_id, &claims, key.as_slice());
    Ok(token.unwrap())
}

} // verus!
