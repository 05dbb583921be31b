use motek_auth::auth::{
    ApiError, AppState, LoginRequest, LogoutRequest, RefreshRequest, RegisterPayload,
};
use motek_auth::config::Config;
use motek_auth::token::{create_jwt, verify_jwt};

const SECRET: &str = "flow-test-secret";
const T0: u64 = 1_700_000_000_000;
const IP_A: u128 = 0xffff_7f00_0001;
const IP_B: u128 = 0xffff_0a00_0002;

fn config(secret: Option<&str>, register: Option<u32>, login: Option<u32>) -> Config {
    Config {
        database_url: String::new(),
        jwt_secret: secret.map(|s| s.to_string()),
        server_address: "127.0.0.1".to_string(),
        port: 3000,
        register_ip_limit_per_hour: register,
        login_ip_limit_per_hour: login,
    }
}

fn state(register: u32, login: u32) -> AppState {
    let mut st = AppState::new(config(Some(SECRET), Some(register), Some(login)));
    st.hash_cost = 4;
    st
}

fn reg(email: &str, password: &str) -> RegisterPayload {
    RegisterPayload { email: email.to_string(), password: password.to_string() }
}

fn creds(email: &str, password: &str) -> LoginRequest {
    LoginRequest { email: email.to_string(), password: password.to_string(), platform: "web".to_string() }
}

fn refresh(token: &str) -> RefreshRequest {
    RefreshRequest { refresh_token: token.to_string(), platform: "web".to_string() }
}

fn status<T>(r: Result<T, ApiError>) -> u16 {
    match r {
        Ok(_) => 200,
        Err(e) => e.status(),
    }
}

#[test]
fn end_to_end_session() {
    let mut st = state(10, 3);
    assert_eq!(st.register(IP_A, &reg("alice@example.com", "Str0ng!Pass"), T0), Ok(201));
    let login = st.login(IP_A, &creds("alice@example.com", "Str0ng!Pass"), T0 + 1_000).unwrap();
    assert!(!login.token.is_empty());
    assert_eq!(login.refresh_token.len(), 64);

    let wrong: Vec<u16> = (0..5)
        .map(|i| status(st.login(IP_B, &creds("alice@example.com", "Wr0ng!Pass"), T0 + 2_000 + i)))
        .collect();
    assert_eq!(wrong, vec![401, 401, 401, 429, 429]);

    let first = verify_jwt(&login.token, SECRET, (T0 + 1_000) / 1000).unwrap();
    let renewed = st.refresh_jwt(&refresh(&login.refresh_token), T0 + 60_000).unwrap();
    let second = verify_jwt(&renewed.token, SECRET, (T0 + 60_000) / 1000).unwrap();
    assert!(second.exp > first.exp);
    assert_eq!(second.sub, first.sub);

    let header = format!("Bearer {}", login.token);
    let uid = st.auth_middleware(Some(&header), T0 + 61_000).unwrap();
    assert_eq!(uuid::Uuid::parse_str(&first.sub).unwrap().as_u128(), uid);
    assert_eq!(first.sub, uuid::Uuid::from_u128(uid).to_string());
    assert_eq!(st.logout_all(uid), Ok(204));
    assert_eq!(status(st.refresh_jwt(&refresh(&login.refresh_token), T0 + 70_000)), 401);
}

#[test]
fn register_rejections() {
    let mut st = state(10, 10);
    assert_eq!(st.register(IP_A, &reg("bob@example.com", "Str0ng!Pass"), T0), Ok(201));
    assert_eq!(st.register(IP_A, &reg("bob@example.com", "Str0ng!Pass"), T0 + 1), Err(ApiError::Conflict));
    assert_eq!(
        st.register(IP_A, &reg("carol@example.com", "weak"), T0 + 2),
        Err(ApiError::BadRequest("Password must be at least 8 characters".to_string()))
    );
    assert_eq!(
        st.register(IP_A, &reg("carol.example.com", "Str0ng!Pass"), T0 + 3),
        Err(ApiError::BadRequest("Email must contain an @ symbol".to_string()))
    );
    assert_eq!(status(st.register(IP_A, &reg("carol@example.com", "weak"), T0 + 4)), 400);
}

#[test]
fn register_is_rate_limited_per_address() {
    let mut st = AppState::new(config(Some(SECRET), None, None));
    st.hash_cost = 4;
    assert_eq!(st.register(IP_A, &reg("dan@example.com", "Str0ng!Pass"), T0), Ok(201));
    assert_eq!(st.register(IP_A, &reg("eve@example.com", "Str0ng!Pass"), T0 + 1), Err(ApiError::TooManyRequests));
    assert_eq!(st.register(IP_B, &reg("eve@example.com", "Str0ng!Pass"), T0 + 2), Ok(201));
}

#[test]
fn login_unknown_email_is_unauthorized() {
    let mut st = state(10, 10);
    assert_eq!(st.login(IP_A, &creds("nobody@example.com", "Str0ng!Pass"), T0).err(), Some(ApiError::Unauthorized));
}

#[test]
fn login_without_secret_is_internal() {
    let mut st = AppState::new(config(None, Some(5), Some(5)));
    st.hash_cost = 4;
    assert_eq!(st.register(IP_A, &reg("fay@example.com", "Str0ng!Pass"), T0), Ok(201));
    let r = st.login(IP_A, &creds("fay@example.com", "Str0ng!Pass"), T0 + 1);
    assert_eq!(status(r), 500);
}

#[test]
fn revoked_token_cannot_refresh() {
    let mut st = state(10, 10);
    st.register(IP_A, &reg("gus@example.com", "Str0ng!Pass"), T0).unwrap();
    let login = st.login(IP_A, &creds("gus@example.com", "Str0ng!Pass"), T0 + 1).unwrap();
    let uid = st.auth_middleware(Some(&format!("Bearer {}", login.token)), T0 + 2).unwrap();
    let claims = verify_jwt(&login.token, SECRET, T0 / 1000).unwrap();
    assert_eq!(claims.sub.len(), 36);
    assert_eq!(claims.sub, uuid::Uuid::from_u128(uid).hyphenated().to_string());
    let out = LogoutRequest { refresh_token: login.refresh_token.clone() };
    assert_eq!(st.logout(uid, &out), Ok(204));
    assert_eq!(st.refresh_jwt(&refresh(&login.refresh_token), T0 + 3).err(), Some(ApiError::Unauthorized));
    // Logging out again with the same token is still the owner's call.
    assert_eq!(st.logout(uid, &out), Ok(204));
}

#[test]
fn foreign_token_logout_is_forbidden() {
    let mut st = state(10, 10);
    st.register(IP_A, &reg("ann@example.com", "Str0ng!Pass"), T0).unwrap();
    st.register(IP_B, &reg("ben@example.com", "Str0ng!Pass"), T0).unwrap();
    let a = st.login(IP_A, &creds("ann@example.com", "Str0ng!Pass"), T0 + 1).unwrap();
    let b = st.login(IP_B, &creds("ben@example.com", "Str0ng!Pass"), T0 + 1).unwrap();
    let a_id = st.auth_middleware(Some(&format!("Bearer {}", a.token)), T0 + 2).unwrap();
    let r = st.logout(a_id, &LogoutRequest { refresh_token: b.refresh_token.clone() });
    assert_eq!(r, Err(ApiError::Forbidden));
    assert_eq!(status(r), 403);
    assert!(st.refresh_jwt(&refresh(&b.refresh_token), T0 + 3).is_ok());
}

#[test]
fn unknown_and_expired_refresh_tokens_are_refused() {
    let mut st = state(10, 10);
    assert_eq!(st.refresh_jwt(&refresh("no-such-token"), T0).err(), Some(ApiError::Unauthorized));
    st.register(IP_A, &reg("hal@example.com", "Str0ng!Pass"), T0).unwrap();
    let login = st.login(IP_A, &creds("hal@example.com", "Str0ng!Pass"), T0).unwrap();
    let thirty_days_ms = 30 * 86_400 * 1000;
    assert!(st.refresh_jwt(&refresh(&login.refresh_token), T0 + thirty_days_ms).is_ok());
    assert_eq!(
        st.refresh_jwt(&refresh(&login.refresh_token), T0 + thirty_days_ms + 1000).err(),
        Some(ApiError::Unauthorized)
    );
}

#[test]
fn middleware_rejections() {
    let mut st = state(10, 10);
    st.register(IP_A, &reg("ivy@example.com", "Str0ng!Pass"), T0).unwrap();
    let login = st.login(IP_A, &creds("ivy@example.com", "Str0ng!Pass"), T0).unwrap();
    assert_eq!(st.auth_middleware(None, T0), Err(ApiError::Unauthorized));
    assert_eq!(st.auth_middleware(Some("Basic abc"), T0), Err(ApiError::Unauthorized));
    assert_eq!(st.auth_middleware(Some("Bearer "), T0), Err(ApiError::Unauthorized));
    assert_eq!(st.auth_middleware(Some(&format!("bearer {}", login.token)), T0), Err(ApiError::Unauthorized));
    let stranger = create_jwt(&uuid::Uuid::from_u128(12345).to_string(), "web", SECRET, T0 / 1000).unwrap();
    assert_eq!(st.auth_middleware(Some(&format!("Bearer {}", stranger)), T0), Err(ApiError::Unauthorized));
    let not_uuid = create_jwt("ivy@example.com", "web", SECRET, T0 / 1000).unwrap();
    assert_eq!(st.auth_middleware(Some(&format!("Bearer {}", not_uuid)), T0), Err(ApiError::Unauthorized));
    let expired_at = T0 + 86_401_000;
    assert_eq!(st.auth_middleware(Some(&format!("Bearer {}", login.token)), expired_at), Err(ApiError::Unauthorized));
    assert!(st.auth_middleware(Some(&format!("Bearer {}", login.token)), T0 + 86_400_000).is_ok());
}

#[test]
fn middleware_without_secret_is_internal() {
    let st = AppState::new(config(None, None, None));
    assert_eq!(st.auth_middleware(Some("Bearer abc"), T0), Err(ApiError::Internal));
    assert_eq!(st.auth_middleware(Some("Token abc"), T0), Err(ApiError::Unauthorized));
}

#[test]
fn error_statuses() {
    assert_eq!(ApiError::BadRequest(String::new()).status(), 400);
    assert_eq!(ApiError::Unauthorized.status(), 401);
    assert_eq!(ApiError::Forbidden.status(), 403);
    assert_eq!(ApiError::Conflict.status(), 409);
    assert_eq!(ApiError::TooManyRequests.status(), 429);
    assert_eq!(ApiError::Internal.status(), 500);
}

#[test]
fn default_limits_are_one_per_hour() {
    let st = AppState::new(config(Some(SECRET), None, None));
    assert_eq!(st.register_limiter.per_hour, 1);
    assert_eq!(st.login_limiter.per_hour, 1);
    let st = AppState::new(config(Some(SECRET), Some(4), Some(7)));
    assert_eq!(st.register_limiter.per_hour, 4);
    assert_eq!(st.login_limiter.per_hour, 7);
}

#[test]
fn split_login_steps() {
    let mut st = state(10, 10);
    st.register(IP_A, &reg("joe@example.com", "Str0ng!Pass"), T0).unwrap();
    assert_eq!(st.login_lookup(IP_A, "nobody@example.com", T0).err(), Some(ApiError::Unauthorized));
    let user = st.login_lookup(IP_A, "joe@example.com", T0).unwrap();
    assert_eq!(user.email, "joe@example.com");
    let resp = st.issue_session(user.id, "ios", T0).unwrap();
    let c = verify_jwt(&resp.token, SECRET, T0 / 1000).unwrap();
    assert_eq!(c.platform, "ios");
    assert_eq!(c.exp, T0 / 1000 + 86_400);
    assert_eq!(uuid::Uuid::parse_str(&c.sub).unwrap().as_u128(), user.id);
    let row = st.tokens.get_refresh_token(&resp.refresh_token).unwrap();
    assert_eq!(row.user_id, user.id);
    assert_eq!(row.expires_at, (T0 / 1000) as i64 + 30 * 86_400);
}

#[test]
fn issue_session_without_secret_is_internal() {
    let mut st = AppState::new(config(None, None, None));
    assert_eq!(st.issue_session(1, "web", T0).err(), Some(ApiError::Internal));
}

#[test]
fn split_register_steps() {
    let mut st = state(10, 10);
    assert_eq!(st.register_check(IP_A, &reg("kim@example.com", "Str0ng!Pass"), T0), Ok(()));
    assert_eq!(st.register_store("kim@example.com", "stored-hash".to_string(), T0), Ok(201));
    assert_eq!(st.register_store("kim@example.com", "other-hash".to_string(), T0), Err(ApiError::Conflict));
    assert_eq!(st.register_check(IP_A, &reg("kim@example.com", "Str0ng!Pass"), T0 + 1), Err(ApiError::Conflict));
    let u = st.users.get_user_by_email("kim@example.com").unwrap();
    assert_eq!(u.password, "stored-hash");
    assert_eq!(u.created_at, (T0 / 1000) as i64);
}
