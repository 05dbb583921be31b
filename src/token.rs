//! Access tokens: HS256-signed JWTs that carry a subject, a platform tag and
//! an expiry instant (seconds since the Unix epoch).
//!
//! Signing and checking the signature are done by `jsonwebtoken`; the expiry
//! rule is this module's own, checked against an instant that the caller
//! supplies.

use jsonwebtoken::errors::ErrorKind;
use jsonwebtoken::{Algorithm, DecodingKey, EncodingKey, Header, Validation};
use serde_json::Value;
use vstd::prelude::*;

verus! {

/// Lifetime of an access token, in seconds.
pub const ACCESS_TTL_SECS: u64 = 86_400;

/// The claims that an access token carries.
pub struct Claims {
    pub sub: String,
    pub exp: u64,
    pub platform: String,
}

impl View for Claims {
    type V = (Seq<char>, Seq<char>, u64);

    /// Subject, platform and expiry.
    open spec fn view(&self) -> (Seq<char>, Seq<char>, u64) {
        (self.sub@, self.platform@, self.exp)
    }
}

/// Why a token was refused, or could not be made.
#[derive(PartialEq, Eq, Structural, Clone, Copy, Debug)]
pub enum TokenError {
    /// Not three well-formed parts, or the claims are not those of an access token.
    Malformed,
    /// The signature does not match the header and claims under the secret.
    BadSignature,
    /// The token is sound but its expiry instant has passed.
    Expired,
    /// Signing failed.
    Signing,
}

/// The token that `jsonwebtoken::encode` makes with the default HS256 header
/// for claims `{sub, exp, platform}` under the HMAC key `secret`.
pub uninterp spec fn hs256_token(sub: Seq<char>, platform: Seq<char>, exp: u64, secret: Seq<char>) -> Seq<char>;

/// What `jsonwebtoken::decode` makes of `token` under `secret`, HS256 only and
/// with the expiry left unchecked: the claims (subject, platform, expiry), or
/// why they could not be had.
pub uninterp spec fn hs256_claims(token: Seq<char>, secret: Seq<char>) -> Result<(Seq<char>, Seq<char>, u64), TokenError>;

/// Successful decoding with the given subject, platform and expiry.
pub open spec fn ok_claims(sub: Seq<char>, platform: Seq<char>, exp: u64) -> Result<(Seq<char>, Seq<char>, u64), TokenError> {
    Ok((sub, platform, exp))
}

pub open spec fn claims_view(r: Result<Claims, TokenError>) -> Result<(Seq<char>, Seq<char>, u64), TokenError> {
    match r {
        Ok(c) => Ok(c@),
        Err(e) => Err(e),
    }
}

/// Relies on `jsonwebtoken::encode` with `Header::default()` (HS256) and
/// `EncodingKey::from_secret`: the token depends on the claims and the secret
/// alone, and `jsonwebtoken::decode` under the same secret gives the claims
/// back. It does not fail here: the key is an HMAC key as the HS256 header
/// asks, a map of strings and an integer always serializes, and HMAC signing
/// always succeeds; the token joins three parts with dots.
#[verifier::external_body]
fn encode_hs256(sub: &str, platform: &str, exp: u64, secret: &str) -> (r: Option<String>)
    ensures
        r is Some,
        r matches Some(t) ==> t@.len() > 0,
        r matches Some(t) ==> t@ == hs256_token(sub@, platform@, exp, secret@),
        r matches Some(t) ==> hs256_claims(t@, secret@) == ok_claims(sub@, platform@, exp),
{
    let mut claims = serde_json::Map::new();
    claims.insert("sub".to_owned(), Value::from(sub));
    claims.insert("exp".to_owned(), Value::from(exp));
    claims.insert("platform".to_owned(), Value::from(platform));
    let key = EncodingKey::from_secret(secret.as_bytes());
    jsonwebtoken::encode(&Header::default(), &claims, &key).ok()
}

/// Relies on `jsonwebtoken::decode` with `Validation::new(HS256)` and
/// `validate_exp` off, so that no clock is read: the result depends on the
/// token and the secret alone. A signature mismatch is reported as such;
/// every other failure, and claims without a string `sub`, a string
/// `platform` and an integer `exp`, as malformed.
#[verifier::external_body]
fn decode_hs256(token: &str, secret: &str) -> (r: Result<Claims, TokenError>)
    ensures
        claims_view(r) == hs256_claims(token@, secret@),
        r matches Err(e) ==> e == TokenError::Malformed || e == TokenError::BadSignature,
{
    let mut validation = Validation::new(Algorithm::HS256);
    validation.validate_exp = false;
    let key = DecodingKey::from_secret(secret.as_bytes());
    match jsonwebtoken::decode::<serde_json::Map<String, Value>>(token, &key, &validation) {
        Ok(d) => match (d.claims.get("sub").and_then(Value::as_str),
            d.claims.get("platform").and_then(Value::as_str),
            d.claims.get("exp").and_then(Value::as_u64)) {
            (Some(s), Some(p), Some(e)) => Ok(Claims { sub: s.to_owned(), exp: e, platform: p.to_owned() }),
            _ => Err(TokenError::Malformed),
        },
        Err(e) => match e.kind() {
            ErrorKind::InvalidSignature => Err(TokenError::BadSignature),
            _ => Err(TokenError::Malformed),
        },
    }
}

/// What checking `token` under `secret` at instant `now` gives: the decoded
/// claims, unless their expiry lies before `now`.
pub open spec fn verification(token: Seq<char>, secret: Seq<char>, now: u64) -> Result<(Seq<char>, Seq<char>, u64), TokenError> {
    match hs256_claims(token, secret) {
        Ok(c) => if c.2 < now { Err(TokenError::Expired) } else { Ok(c) },
        Err(e) => Err(e),
    }
}

/// Issues an access token for `username` on `platform`, signed with `secret`,
/// that expires `ACCESS_TTL_SECS` after `now`. Signing with an HMAC key does
/// not fail.
pub fn create_jwt(username: &str, platform: &str, secret: &str, now: u64) -> (r: Result<String, TokenError>)
    requires
        now <= u64::MAX - ACCESS_TTL_SECS,
    ensures
        r is Ok,
        r matches Ok(t) ==> t@.len() > 0,
        r matches Ok(t) ==> t@ == hs256_token(username@, platform@, (now + ACCESS_TTL_SECS) as u64, secret@),
        r matches Ok(t) ==> hs256_claims(t@, secret@) == ok_claims(username@, platform@, (now + ACCESS_TTL_SECS) as u64),
{
    match encode_hs256(username, platform, now + ACCESS_TTL_SECS, secret) {
        Some(t) => Ok(t),
        None => Err(TokenError::Signing),
    }
}

/// Checks `token` under `secret` at instant `now` and returns its claims.
pub fn verify_jwt(token: &str, secret: &str, now: u64) -> (r: Result<Claims, TokenError>)
    ensures
        claims_view(r) == verification(token@, secret@, now),
{
    match decode_hs256(token, secret) {
        Ok(c) => {
            if c.exp < now {
                Err(TokenError::Expired)
            } else {
                Ok(c)
            }
        },
        Err(e) => Err(e),
    }
}

/// A token issued at `issued_at` for `sub` on `platform` under `secret` is
/// accepted by the check under the same secret, with that subject and
/// platform, at every instant up to its expiry, and refused as expired at
/// every instant after it.
pub proof fn lemma_issue_verify_round_trip(
    token: Seq<char>,
    sub: Seq<char>,
    platform: Seq<char>,
    secret: Seq<char>,
    issued_at: u64,
    now: u64,
)
    requires
        issued_at <= u64::MAX - ACCESS_TTL_SECS,
        hs256_claims(token, secret) == ok_claims(sub, platform, (issued_at + ACCESS_TTL_SECS) as u64),
    ensures
        now <= issued_at + ACCESS_TTL_SECS ==> verification(token, secret, now) == ok_claims(sub, platform, (issued_at + ACCESS_TTL_SECS) as u64),
        now > issued_at + ACCESS_TTL_SECS ==> verification(token, secret, now) is Err && verification(token, secret, now)->Err_0 == TokenError::Expired,
{
}

} // verus!
