//! What handlers of protected routes are given: the caller's verified claims,
//! or the identifier that the authenticator attached to the request.

use crate::auth::ApiError;
use crate::text::{has_prefix, same_text, strip_prefix};
use crate::token::{verification, verify_jwt, Claims};
use vstd::prelude::*;
use vstd::string::StringExecFns;

verus! {

/// The claims of the access token that a request carries, verified.
pub struct AuthClaims(pub Claims);

/// The identifier of the authenticated user.
pub struct AuthUser(pub u128);

/// Why no authenticated user could be had.
#[derive(PartialEq, Eq, Structural, Clone, Copy, Debug)]
pub enum AuthRejection {
    /// The request carries no authenticated user.
    Missing,
}

impl AuthRejection {
    /// The HTTP status that the rejection is answered with.
    pub fn status(&self) -> (r: u16)
        ensures
            r == 401,
    {
        match self {
            AuthRejection::Missing => 401,
        }
    }
}

impl AuthUser {
    /// The user identifier that the authenticator attached to the request.
    pub fn from_extension(user_id: Option<u128>) -> (r: Result<AuthUser, AuthRejection>)
        ensures
            match user_id {
                Some(id) => r matches Ok(u) && u.0 == id,
                None => r == Err::<AuthUser, AuthRejection>(AuthRejection::Missing),
            },
    {
        match user_id {
            Some(id) => Ok(AuthUser(id)),
            None => Err(AuthRejection::Missing),
        }
    }
}

impl AuthClaims {
    /// Verifies the token of an `Authorization: Bearer <token>` header under
    /// `secret` at `now_ms` (milliseconds since the Unix epoch). A missing
    /// secret, a missing header, another scheme and a token that fails
    /// verification are all refused as unauthorized.
    pub fn from_authorization(secret: Option<&str>, authorization: Option<&str>, now_ms: u64) -> (r: Result<AuthClaims, ApiError>)
        ensures
            match (secret, authorization) {
                (Some(k), Some(h)) => if has_prefix(h@, "Bearer "@) {
                    let t = h@.subrange("Bearer "@.len() as int, h@.len() as int);
                    match verification(t, k@, (now_ms / 1000) as u64) {
                        Ok(c) => r matches Ok(a) && a.0@ == c,
                        Err(_) => r matches Err(ApiError::Unauthorized),
                    }
                } else {
                    r matches Err(ApiError::Unauthorized)
                },
                _ => r matches Err(ApiError::Unauthorized),
            },
    {
        let k = match secret {
            Some(k) => k,
            None => return Err(ApiError::Unauthorized),
        };
        let h = match authorization {
            Some(h) => h,
            None => return Err(ApiError::Unauthorized),
        };
        let token = match strip_prefix(h, "Bearer ") {
            Some(t) => t,
            None => return Err(ApiError::Unauthorized),
        };
        proof {
            assert(token@ =~= h@.subrange("Bearer "@.len() as int, h@.len() as int));
        }
        match verify_jwt(token, k, now_ms / 1000) {
            Ok(c) => Ok(AuthClaims(c)),
            Err(_) => Err(ApiError::Unauthorized),
        }
    }
}

/// The greeting of the protected endpoint.
pub open spec fn greeting(sub: Seq<char>, platform: Seq<char>) -> Seq<char> {
    "Hello, user "@ + sub + " from platform "@ + platform
}

/// The protected endpoint, open to callers on the "web" platform only (403
/// for the others); it greets the caller by subject and platform.
pub fn protected_endpoint(claims: &AuthClaims) -> (r: Result<String, ApiError>)
    ensures
        claims.0.platform@ == "web"@ ==> (r matches Ok(g) && g@ == greeting(claims.0.sub@, claims.0.platform@)),
        claims.0.platform@ != "web"@ ==> r matches Err(ApiError::Forbidden),
{
    if !same_text(claims.0.platform.as_str(), "web") {
        return Err(ApiError::Forbidden);
    }
    let mut g = String::from_str("Hello, user ");
    g.append(claims.0.sub.as_str());
    g.append(" from platform ");
    g.append(claims.0.platform.as_str());
    Ok(g)
}

} // verus!
