//! The authentication endpoints and the request authenticator, over the
//! user directory, the refresh-token store and the two rate limiters.
//!
//! Every operation takes the current instant `now_ms`, in milliseconds since
//! the Unix epoch; rate limiting counts milliseconds, tokens and rows count
//! whole seconds.

use crate::config::{or_default, Config};
use crate::credentials::{bcrypt_verdict, check_password, hash_password_with_cost, DEFAULT_HASH_COST};
use crate::ids::{new_uuid, parse_uuid, uuid_parsed, uuid_text, uuid_to_string};
use crate::limiter::{admits, after, IpLimiter};
use crate::refresh::{
    has_token, revoke_token, revoke_user, token_shape, unique_tokens, RefreshTokenStore, RefreshTokenView,
    SECS_PER_DAY,
};
use crate::text::{has_prefix, strip_prefix};
use crate::token::{create_jwt, hs256_claims, hs256_token, ok_claims, verification, verify_jwt, ACCESS_TTL_SECS};
use crate::users::{has_email, has_id, user_by_email, User, UserDirectory, UserError, UserView};
use crate::validators::{email_error, password_error, validate_email, validate_password};
use vstd::prelude::*;

verus! {

/// Lifetime of a refresh token, in days.
pub const REFRESH_TTL_DAYS: i64 = 30;

/// Body of a registration.
pub struct RegisterPayload {
    pub email: String,
    pub password: String,
}

/// Body of a login.
pub struct LoginRequest {
    pub email: String,
    pub password: String,
    /// "web", "android" or "ios".
    pub platform: String,
}

/// Answer to a login: an access token and a refresh token.
pub struct LoginResponse {
    pub token: String,
    pub refresh_token: String,
}

/// Body of a refresh.
pub struct RefreshRequest {
    pub refresh_token: String,
    pub platform: String,
}

/// Answer to a refresh: a new access token.
pub struct RefreshResponse {
    pub token: String,
}

/// Body of a logout.
pub struct LogoutRequest {
    pub refresh_token: String,
}

/// How a request fails.
#[derive(Debug, PartialEq, Eq)]
pub enum ApiError {
    /// Malformed e-mail address or password; the message names the rule.
    BadRequest(String),
    /// Missing, invalid or expired credentials.
    Unauthorized,
    /// Authenticated, but not entitled.
    Forbidden,
    /// The e-mail address is already registered.
    Conflict,
    /// The address made too many attempts in the last hour.
    TooManyRequests,
    /// A failure that is not the caller's.
    Internal,
}

impl ApiError {
    /// The HTTP status that the error is answered with.
    pub fn status(&self) -> (r: u16)
        ensures
            r == match self {
                ApiError::BadRequest(_) => 400u16,
                ApiError::Unauthorized => 401u16,
                ApiError::Forbidden => 403u16,
                ApiError::Conflict => 409u16,
                ApiError::TooManyRequests => 429u16,
                ApiError::Internal => 500u16,
            },
    {
        match self {
            ApiError::BadRequest(_) => 400,
            ApiError::Unauthorized => 401,
            ApiError::Forbidden => 403,
            ApiError::Conflict => 409,
            ApiError::TooManyRequests => 429,
            ApiError::Internal => 500,
        }
    }
}

/// Whole seconds in `now_ms` milliseconds.
pub open spec fn secs(now_ms: u64) -> i64 {
    (now_ms / 1000) as i64
}

/// `l2` is `l1` after one check of `ip` at `now`.
pub open spec fn limiter_step(l1: IpLimiter, l2: IpLimiter, ip: u128, now: u64) -> bool {
    &&& l2.per_hour == l1.per_hour
    &&& l2.window(ip) == after(l1.window(ip), l1.per_hour, now)
    &&& forall|k: u128| k != ip ==> #[trigger] l2.window(k) == l1.window(k)
}

/// The refresh token `t` cannot be exchanged at `now_s`: no row holds it, or
/// the row that holds it is revoked or expired.
pub open spec fn refresh_refused(rows: Seq<RefreshTokenView>, t: Seq<char>, now_s: i64) -> bool {
    !has_token(rows, t) || exists|i: int|
        0 <= i < rows.len() && (#[trigger] rows[i]).token == t && (rows[i].revoked || rows[i].expires_at < now_s)
}

/// The row that holds `t` belongs to `user`.
pub open spec fn owns_token(rows: Seq<RefreshTokenView>, t: Seq<char>, user: u128) -> bool {
    exists|i: int| 0 <= i < rows.len() && (#[trigger] rows[i]).token == t && rows[i].user_id == user
}

/// The token that a well-formed `Authorization` header carries: what follows
/// `Bearer `, when that is not empty.
pub open spec fn bearer_token(header: Option<Seq<char>>) -> Option<Seq<char>> {
    match header {
        Some(h) => if has_prefix(h, "Bearer "@) && h.len() > "Bearer "@.len() {
            Some(h.subrange("Bearer "@.len() as int, h.len() as int))
        } else {
            None
        },
        None => None,
    }
}

/// The user that a request with this `Authorization` header is made for, or
/// `None` where it must be refused as unauthenticated.
pub open spec fn authenticated_user(users: Seq<UserView>, header: Option<Seq<char>>, secret: Seq<char>, now_s: i64) -> Option<u128> {
    match bearer_token(header) {
        Some(t) => match verification(t, secret, now_s as u64) {
            Ok(c) => match uuid_parsed(c.0) {
                Some(id) => if has_id(users, id) { Some(id) } else { None },
                None => None,
            },
            Err(_) => None,
        },
        None => None,
    }
}

pub open spec fn secret_view(s: Option<String>) -> Option<Seq<char>> {
    match s {
        Some(k) => Some(k@),
        None => None,
    }
}

/// Everything the endpoints share for the life of the process.
pub struct AppState {
    pub config: Config,
    pub users: UserDirectory,
    pub tokens: RefreshTokenStore,
    pub register_limiter: IpLimiter,
    pub login_limiter: IpLimiter,
    /// Work factor of new password hashes.
    pub hash_cost: u32,
}

impl AppState {
    pub open spec fn wf(&self) -> bool {
        self.users.wf() && self.tokens.wf()
    }

    /// Empty stores, and limiters set from the configuration.
    pub fn new(config: Config) -> (r: Self)
        ensures
            r.wf(),
            r.config == config,
            r.users@ == Seq::<UserView>::empty(),
            r.tokens@ == Seq::<RefreshTokenView>::empty(),
            r.register_limiter.per_hour == or_default(config.register_ip_limit_per_hour, 1),
            r.login_limiter.per_hour == or_default(config.login_ip_limit_per_hour, 1),
            r.register_limiter.map@.is_empty(),
            r.login_limiter.map@.is_empty(),
            r.hash_cost == DEFAULT_HASH_COST,
    {
        let register_per_hour = match config.register_ip_limit_per_hour {
            Some(v) => v,
            None => 1,
        };
        let login_per_hour = match config.login_ip_limit_per_hour {
            Some(v) => v,
            None => 1,
        };
        AppState {
            config,
            users: UserDirectory::new(),
            tokens: RefreshTokenStore::new(),
            register_limiter: IpLimiter::new(register_per_hour),
            login_limiter: IpLimiter::new(login_per_hour),
            hash_cost: DEFAULT_HASH_COST,
        }
    }

    /// The checks of a registration that come before hashing: the address is
    /// rate limited (429), the password and then the e-mail address must be
    /// well formed (400, with the rule broken), and the address must be new
    /// (409).
    pub fn register_check(&mut self, ip: u128, payload: &RegisterPayload, now_ms: u64) -> (r: Result<(), ApiError>)
        requires
            old(self).wf(),
        ensures
            final(self).wf(),
            limiter_step(old(self).register_limiter, final(self).register_limiter, ip, now_ms),
            final(self).login_limiter == old(self).login_limiter,
            final(self).users@ == old(self).users@,
            final(self).tokens@ == old(self).tokens@,
            final(self).config == old(self).config,
            final(self).hash_cost == old(self).hash_cost,
            !admits(old(self).register_limiter.window(ip), old(self).register_limiter.per_hour, now_ms)
                ==> r matches Err(ApiError::TooManyRequests),
            admits(old(self).register_limiter.window(ip), old(self).register_limiter.per_hour, now_ms) ==> {
                let pw = password_error(payload.password@);
                let em = email_error(payload.email@);
                &&& (pw matches Some(m) ==> (r matches Err(ApiError::BadRequest(msg)) && msg@ == m))
                &&& (pw is None ==> (em matches Some(m) ==> (r matches Err(ApiError::BadRequest(msg)) && msg@ == m)))
                &&& (pw is None && em is None && has_email(old(self).users@, payload.email@)
                    ==> r matches Err(ApiError::Conflict))
                &&& (pw is None && em is None && !has_email(old(self).users@, payload.email@) ==> r is Ok)
            },
    {
        if !self.register_limiter.check_and_update(ip, now_ms) {
            return Err(ApiError::TooManyRequests);
        }
        match validate_password(payload.password.as_str()) {
            Err(m) => return Err(ApiError::BadRequest(m)),
            Ok(()) => {},
        }
        match validate_email(payload.email.as_str()) {
            Err(m) => return Err(ApiError::BadRequest(m)),
            Ok(()) => {},
        }
        if self.users.get_user_by_email(payload.email.as_str()).is_some() {
            return Err(ApiError::Conflict);
        }
        Ok(())
    }

    /// Stores a registered user with an already computed password hash
    /// (201) under a fresh random identifier. An address taken in the
    /// meantime is a conflict (409); an identifier drawn twice is an internal
    /// error.
    pub fn register_store(&mut self, email: &str, password_hash: String, now_ms: u64) -> (r: Result<u16, ApiError>)
        requires
            old(self).wf(),
        ensures
            final(self).wf(),
            final(self).register_limiter == old(self).register_limiter,
            final(self).login_limiter == old(self).login_limiter,
            final(self).tokens@ == old(self).tokens@,
            final(self).config == old(self).config,
            final(self).hash_cost == old(self).hash_cost,
            has_email(old(self).users@, email@) ==> r matches Err(ApiError::Conflict),
            !has_email(old(self).users@, email@) ==> (r is Ok || (r matches Err(ApiError::Internal))),
            r is Ok ==> r == Ok::<u16, ApiError>(201) && exists|u: UserView|
                final(self).users@ == old(self).users@.push(u) && u.email == email@
                    && u.password == password_hash@ && u.created_at == secs(now_ms),
            r is Err ==> final(self).users@ == old(self).users@,
    {
        let id = new_uuid();
        let created_at = (now_ms / 1000) as i64;
        match self.users.insert_user(id, email.to_owned(), password_hash, created_at) {
            Ok(_) => Ok(201),
            Err(UserError::DuplicateEmail) => Err(ApiError::Conflict),
            Err(UserError::DuplicateId) => Err(ApiError::Internal),
        }
    }

    /// Registers a user: `register_check`, then the password is hashed with
    /// a fresh salt and the user stored (201). A hashing failure, or an
    /// identifier drawn twice, is an internal error.
    pub fn register(&mut self, ip: u128, payload: &RegisterPayload, now_ms: u64) -> (r: Result<u16, ApiError>)
        requires
            old(self).wf(),
        ensures
            final(self).wf(),
            limiter_step(old(self).register_limiter, final(self).register_limiter, ip, now_ms),
            final(self).login_limiter == old(self).login_limiter,
            final(self).tokens@ == old(self).tokens@,
            final(self).config == old(self).config,
            final(self).hash_cost == old(self).hash_cost,
            !admits(old(self).register_limiter.window(ip), old(self).register_limiter.per_hour, now_ms)
                ==> r matches Err(ApiError::TooManyRequests),
            admits(old(self).register_limiter.window(ip), old(self).register_limiter.per_hour, now_ms) ==> {
                let pw = password_error(payload.password@);
                let em = email_error(payload.email@);
                &&& (pw matches Some(m) ==> (r matches Err(ApiError::BadRequest(msg)) && msg@ == m))
                &&& (pw is None ==> (em matches Some(m) ==> (r matches Err(ApiError::BadRequest(msg)) && msg@ == m)))
                &&& (pw is None && em is None && has_email(old(self).users@, payload.email@)
                    ==> r matches Err(ApiError::Conflict))
                &&& (pw is None && em is None && !has_email(old(self).users@, payload.email@)
                    ==> (r == Ok::<u16, ApiError>(201) || (r matches Err(ApiError::Internal))))
            },
            r is Ok ==> r == Ok::<u16, ApiError>(201) && exists|u: UserView|
                final(self).users@ == old(self).users@.push(u) && u.email == payload.email@
                    && bcrypt_verdict(payload.password@, u.password) == Some(true)
                    && u.created_at == secs(now_ms),
            r is Err ==> final(self).users@ == old(self).users@,
    {
        match self.register_check(ip, payload, now_ms) {
            Err(e) => return Err(e),
            Ok(()) => {},
        }
        let hash = match hash_password_with_cost(payload.password.as_str(), self.hash_cost) {
            Some(h) => h,
            None => return Err(ApiError::Internal),
        };
        self.register_store(payload.email.as_str(), hash, now_ms)
    }

    /// The step of a login that comes before the password check: the
    /// address is rate limited (429), and the e-mail address must be
    /// registered (401); the user registered with it is returned.
    pub fn login_lookup(&mut self, ip: u128, email: &str, now_ms: u64) -> (r: Result<User, ApiError>)
        requires
            old(self).wf(),
        ensures
            final(self).wf(),
            limiter_step(old(self).login_limiter, final(self).login_limiter, ip, now_ms),
            final(self).register_limiter == old(self).register_limiter,
            final(self).users@ == old(self).users@,
            final(self).tokens@ == old(self).tokens@,
            final(self).config == old(self).config,
            final(self).hash_cost == old(self).hash_cost,
            !admits(old(self).login_limiter.window(ip), old(self).login_limiter.per_hour, now_ms)
                ==> r matches Err(ApiError::TooManyRequests),
            admits(old(self).login_limiter.window(ip), old(self).login_limiter.per_hour, now_ms) ==> match user_by_email(old(self).users@, email@) {
                Some(u) => r matches Ok(found) && found@ == u,
                None => r matches Err(ApiError::Unauthorized),
            },
    {
        if !self.login_limiter.check_and_update(ip, now_ms) {
            return Err(ApiError::TooManyRequests);
        }
        match self.users.get_user_by_email(email) {
            Some(u) => Ok(u),
            None => Err(ApiError::Unauthorized),
        }
    }

    /// The step of a login that comes after the password check: an access
    /// token for `user_id` on `platform`, and a refresh token valid for
    /// `REFRESH_TTL_DAYS` days. A missing signing secret, or a refresh token
    /// drawn twice, is an internal error; where a secret is set and no row
    /// holds a token of the refresh-token shape, it succeeds.
    pub fn issue_session(&mut self, user_id: u128, platform: &str, now_ms: u64) -> (r: Result<LoginResponse, ApiError>)
        requires
            old(self).wf(),
        ensures
            final(self).wf(),
            final(self).register_limiter == old(self).register_limiter,
            final(self).login_limiter == old(self).login_limiter,
            final(self).users@ == old(self).users@,
            final(self).config == old(self).config,
            final(self).hash_cost == old(self).hash_cost,
            old(self).config.jwt_secret is None ==> r matches Err(ApiError::Internal),
            old(self).config.jwt_secret is Some && (forall|i: int|
                0 <= i < old(self).tokens@.len() ==> !token_shape(#[trigger] old(self).tokens@[i].token)) ==> r is Ok,
            r is Err ==> (r matches Err(ApiError::Internal)) && final(self).tokens@ == old(self).tokens@,
            r matches Ok(resp) ==> {
                let now_s = secs(now_ms);
                let k = secret_view(old(self).config.jwt_secret)->Some_0;
                &&& old(self).config.jwt_secret is Some
                &&& resp.token@.len() > 0
                &&& resp.token@ == hs256_token(uuid_text(user_id), platform@, (now_s + ACCESS_TTL_SECS) as u64, k)
                &&& hs256_claims(resp.token@, k) == ok_claims(uuid_text(user_id), platform@, (now_s + ACCESS_TTL_SECS) as u64)
                &&& token_shape(resp.refresh_token@)
                &&& !has_token(old(self).tokens@, resp.refresh_token@)
                &&& final(self).tokens@ == old(self).tokens@.push(RefreshTokenView {
                    id: final(self).tokens@.last().id,
                    user_id,
                    token: resp.refresh_token@,
                    created_at: now_s,
                    expires_at: (now_s + REFRESH_TTL_DAYS * SECS_PER_DAY) as i64,
                    revoked: false,
                })
            },
    {
        let secret = match &self.config.jwt_secret {
            Some(k) => k.as_str(),
            None => return Err(ApiError::Internal),
        };
        let now_s = now_ms / 1000;
        let subject = uuid_to_string(user_id);
        let token = match create_jwt(subject.as_str(), platform, secret, now_s) {
            Ok(t) => t,
            Err(_) => return Err(ApiError::Internal),
        };
        let refresh_token = match self.tokens.create_refresh_token(user_id, REFRESH_TTL_DAYS, now_s as i64) {
            Ok(row) => row.token,
            Err(_) => return Err(ApiError::Internal),
        };
        Ok(LoginResponse { token, refresh_token })
    }

    /// Logs a user in: `login_lookup`, then the password must match the
    /// stored hash (401), then `issue_session`. With correct credentials and
    /// a signing secret set, it succeeds unless the refresh token drawn is
    /// already held by a row.
    pub fn login(&mut self, ip: u128, payload: &LoginRequest, now_ms: u64) -> (r: Result<LoginResponse, ApiError>)
        requires
            old(self).wf(),
        ensures
            final(self).wf(),
            limiter_step(old(self).login_limiter, final(self).login_limiter, ip, now_ms),
            final(self).register_limiter == old(self).register_limiter,
            final(self).users@ == old(self).users@,
            final(self).config == old(self).config,
            final(self).hash_cost == old(self).hash_cost,
            !admits(old(self).login_limiter.window(ip), old(self).login_limiter.per_hour, now_ms)
                ==> r matches Err(ApiError::TooManyRequests),
            admits(old(self).login_limiter.window(ip), old(self).login_limiter.per_hour, now_ms) ==> {
                let found = user_by_email(old(self).users@, payload.email@);
                &&& (found is None ==> r matches Err(ApiError::Unauthorized))
                &&& (found matches Some(u) ==> (bcrypt_verdict(payload.password@, u.password) != Some(true)
                    ==> r matches Err(ApiError::Unauthorized)))
                &&& (found matches Some(u) ==> (bcrypt_verdict(payload.password@, u.password) == Some(true)
                    ==> (r is Ok || (r matches Err(ApiError::Internal)))))
                &&& (found matches Some(u) ==> (bcrypt_verdict(payload.password@, u.password) == Some(true)
                    && old(self).config.jwt_secret is Some
                    && (forall|i: int| 0 <= i < old(self).tokens@.len() ==> !token_shape(#[trigger] old(self).tokens@[i].token))
                    ==> r is Ok))
            },
            r is Err ==> final(self).tokens@ == old(self).tokens@,
            r matches Ok(resp) ==> {
                let now_s = secs(now_ms);
                let u = user_by_email(old(self).users@, payload.email@)->Some_0;
                let k = secret_view(old(self).config.jwt_secret)->Some_0;
                &&& admits(old(self).login_limiter.window(ip), old(self).login_limiter.per_hour, now_ms)
                &&& user_by_email(old(self).users@, payload.email@) is Some
                &&& bcrypt_verdict(payload.password@, u.password) == Some(true)
                &&& old(self).config.jwt_secret is Some
                &&& resp.token@.len() > 0
                &&& resp.token@ == hs256_token(uuid_text(u.id), payload.platform@, (now_s + ACCESS_TTL_SECS) as u64, k)
                &&& hs256_claims(resp.token@, k) == ok_claims(uuid_text(u.id), payload.platform@, (now_s + ACCESS_TTL_SECS) as u64)
                &&& token_shape(resp.refresh_token@)
                &&& !has_token(old(self).tokens@, resp.refresh_token@)
                &&& final(self).tokens@ == old(self).tokens@.push(RefreshTokenView {
                    id: final(self).tokens@.last().id,
                    user_id: u.id,
                    token: resp.refresh_token@,
                    created_at: now_s,
                    expires_at: (now_s + REFRESH_TTL_DAYS * SECS_PER_DAY) as i64,
                    revoked: false,
                })
            },
    {
        let user = match self.login_lookup(ip, payload.email.as_str(), now_ms) {
            Ok(u) => u,
            Err(e) => return Err(e),
        };
        if !check_password(payload.password.as_str(), user.password.as_str()) {
            return Err(ApiError::Unauthorized);
        }
        self.issue_session(user.id, payload.platform.as_str(), now_ms)
    }

    /// Exchanges a refresh token for a new access token for the token's user
    /// on `platform`. A token that no row holds, or whose row is revoked or
    /// expired, is refused (401); a missing signing secret or a signing
    /// failure is an internal error.
    pub fn refresh_jwt(&self, payload: &RefreshRequest, now_ms: u64) -> (r: Result<RefreshResponse, ApiError>)
        requires
            self.wf(),
        ensures
            refresh_refused(self.tokens@, payload.refresh_token@, secs(now_ms)) <==> r matches Err(ApiError::Unauthorized),
            r is Err ==> (r matches Err(ApiError::Unauthorized)) || (r matches Err(ApiError::Internal)),
            self.config.jwt_secret is Some && !refresh_refused(self.tokens@, payload.refresh_token@, secs(now_ms)) ==> r is Ok,
            self.config.jwt_secret is None && !refresh_refused(self.tokens@, payload.refresh_token@, secs(now_ms))
                ==> r matches Err(ApiError::Internal),
            r matches Ok(resp) ==> resp.token@.len() > 0,
            r matches Ok(resp) ==> exists|i: int| {
                let row = #[trigger] self.tokens@[i];
                let k = secret_view(self.config.jwt_secret)->Some_0;
                let exp = (secs(now_ms) + ACCESS_TTL_SECS) as u64;
                &&& 0 <= i < self.tokens@.len()
                &&& row.token == payload.refresh_token@
                &&& self.config.jwt_secret is Some
                &&& resp.token@ == hs256_token(uuid_text(row.user_id), payload.platform@, exp, k)
                &&& hs256_claims(resp.token@, k) == ok_claims(uuid_text(row.user_id), payload.platform@, exp)
            },
    {
        let now_s = now_ms / 1000;
        let row = match self.tokens.get_refresh_token(payload.refresh_token.as_str()) {
            Some(row) => row,
            None => return Err(ApiError::Unauthorized),
        };
        proof {
            let i = choose|i: int| 0 <= i < self.tokens@.len() && self.tokens@[i] == row@ && row@.token == payload.refresh_token@;
            assert forall|j: int| 0 <= j < self.tokens@.len() && (#[trigger] self.tokens@[j]).token == payload.refresh_token@
                implies j == i by {
                if j < i {
                    assert(self.tokens@[j].token != self.tokens@[i].token);
                } else if j > i {
                    assert(self.tokens@[i].token != self.tokens@[j].token);
                }
            }
        }
        if row.revoked || row.expires_at < now_s as i64 {
            return Err(ApiError::Unauthorized);
        }
        let secret = match &self.config.jwt_secret {
            Some(k) => k.as_str(),
            None => return Err(ApiError::Internal),
        };
        let subject = uuid_to_string(row.user_id);
        match create_jwt(subject.as_str(), payload.platform.as_str(), secret, now_s) {
            Ok(token) => Ok(RefreshResponse { token }),
            Err(_) => Err(ApiError::Internal),
        }
    }

    /// Revokes the caller's refresh token. A token that does not belong to
    /// `user_id` (or that no row holds) is refused (403) and nothing changes.
    pub fn logout(&mut self, user_id: u128, payload: &LogoutRequest) -> (r: Result<u16, ApiError>)
        requires
            old(self).wf(),
        ensures
            final(self).wf(),
            final(self).users@ == old(self).users@,
            final(self).config == old(self).config,
            final(self).register_limiter == old(self).register_limiter,
            final(self).login_limiter == old(self).login_limiter,
            owns_token(old(self).tokens@, payload.refresh_token@, user_id) ==> r == Ok::<u16, ApiError>(204)
                && final(self).tokens@ == revoke_token(old(self).tokens@, payload.refresh_token@),
            !owns_token(old(self).tokens@, payload.refresh_token@, user_id) ==> (r matches Err(ApiError::Forbidden))
                && final(self).tokens@ == old(self).tokens@,
    {
        if !self.tokens.token_belongs_to_user(payload.refresh_token.as_str(), user_id) {
            return Err(ApiError::Forbidden);
        }
        self.tokens.revoke_refresh_token(payload.refresh_token.as_str());
        Ok(204)
    }

    /// Revokes every refresh token of `user_id`: a log out on all devices.
    pub fn logout_all(&mut self, user_id: u128) -> (r: Result<u16, ApiError>)
        requires
            old(self).wf(),
        ensures
            final(self).wf(),
            final(self).users@ == old(self).users@,
            final(self).config == old(self).config,
            final(self).register_limiter == old(self).register_limiter,
            final(self).login_limiter == old(self).login_limiter,
            r == Ok::<u16, ApiError>(204),
            final(self).tokens@ == revoke_user(old(self).tokens@, user_id),
    {
        self.tokens.revoke_all_refresh_tokens_for_user(user_id);
        Ok(204)
    }

    /// Authenticates a request to a protected route from its `Authorization`
    /// header: it must read `Bearer <token>` with a token that verifies under
    /// the signing secret at `now_ms`, whose subject is the identifier of a
    /// registered user. That identifier is returned; anything else is refused
    /// (401), before any lookup where the header is wrong. A missing signing
    /// secret is an internal error.
    pub fn auth_middleware(&self, authorization: Option<&str>, now_ms: u64) -> (r: Result<u128, ApiError>)
        requires
            self.wf(),
        ensures
            ({
                let h = match authorization { Some(a) => Some(a@), None => None };
                match self.config.jwt_secret {
                    None => if bearer_token(h) is Some { r matches Err(ApiError::Internal) } else { r matches Err(ApiError::Unauthorized) },
                    Some(k) => match authenticated_user(self.users@, h, k@, secs(now_ms)) {
                        Some(id) => r == Ok::<u128, ApiError>(id),
                        None => r matches Err(ApiError::Unauthorized),
                    },
                }
            }),
    {
        let header = match authorization {
            Some(h) => h,
            None => return Err(ApiError::Unauthorized),
        };
        let token = match strip_prefix(header, "Bearer ") {
            Some(t) => t,
            None => return Err(ApiError::Unauthorized),
        };
        if token.unicode_len() == 0 {
            return Err(ApiError::Unauthorized);
        }
        proof {
            assert(token@ =~= header@.subrange("Bearer "@.len() as int, header@.len() as int));
        }
        let secret = match &self.config.jwt_secret {
            Some(k) => k.as_str(),
            None => return Err(ApiError::Internal),
        };
        let now_s = now_ms / 1000;
        let claims = match verify_jwt(token, secret, now_s) {
            Ok(c) => c,
            Err(_) => return Err(ApiError::Unauthorized),
        };
        let id = match parse_uuid(claims.sub.as_str()) {
            Some(id) => id,
            None => return Err(ApiError::Unauthorized),
        };
        match self.users.get_user_by_id(id) {
            Some(u) => Ok(u.id),
            None => Err(ApiError::Unauthorized),
        }
    }
}

/// Once a refresh token is revoked, every later exchange of it is refused,
/// at any instant.
pub proof fn lemma_revoked_token_refused(rows: Seq<RefreshTokenView>, t: Seq<char>, now_s: i64)
    ensures
        refresh_refused(revoke_token(rows, t), t, now_s),
{
    let after = revoke_token(rows, t);
    if has_token(after, t) {
        let i = choose|i: int| 0 <= i < after.len() && (#[trigger] after[i]).token == t;
        assert(after[i].revoked);
    }
}

/// After a log out on all devices, every refresh token of that user is
/// refused, at any instant.
pub proof fn lemma_logout_all_refuses(rows: Seq<RefreshTokenView>, user: u128, t: Seq<char>, now_s: i64)
    requires
        owns_token(rows, t, user),
    ensures
        refresh_refused(revoke_user(rows, user), t, now_s),
{
    let i = choose|i: int| 0 <= i < rows.len() && (#[trigger] rows[i]).token == t && rows[i].user_id == user;
    let after = revoke_user(rows, user);
    assert(after[i].token == t && after[i].revoked);
}

/// In a store without repeated tokens, a token that belongs to user `b` does
/// not belong to any other user `a`: a log out by `a` with it is refused.
pub proof fn lemma_foreign_token_not_owned(rows: Seq<RefreshTokenView>, t: Seq<char>, a: u128, b: u128)
    requires
        unique_tokens(rows),
        owns_token(rows, t, b),
        a != b,
    ensures
        !owns_token(rows, t, a),
{
    let i = choose|i: int| 0 <= i < rows.len() && (#[trigger] rows[i]).token == t && rows[i].user_id == b;
    if owns_token(rows, t, a) {
        let j = choose|j: int| 0 <= j < rows.len() && (#[trigger] rows[j]).token == t && rows[j].user_id == a;
        if i < j {
            assert(rows[i].token != rows[j].token);
        } else {
            assert(rows[j].token != rows[i].token);
        }
    }
}

} // verus!
