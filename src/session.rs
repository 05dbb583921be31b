//! The client's session: the tokens that the server handed out at login and
//! the signed-in user's details, kept in memory. Persisting them is left to
//! the caller.

use vstd::prelude::*;

verus! {

/// The pair of tokens that a login returns.
pub struct AuthTokens {
    pub token: String,
    pub refresh_token: String,
}

impl Clone for AuthTokens {
    fn clone(&self) -> (r: Self)
        ensures
            r == *self,
    {
        AuthTokens { token: self.token.clone(), refresh_token: self.refresh_token.clone() }
    }
}

/// The signed-in user.
pub struct UserInfo {
    pub email: String,
    pub user_id: String,
}

impl Clone for UserInfo {
    fn clone(&self) -> (r: Self)
        ensures
            r == *self,
    {
        UserInfo { email: self.email.clone(), user_id: self.user_id.clone() }
    }
}

/// The tokens as the request helpers hold them. `expiry` is in seconds since
/// the Unix epoch, where known.
pub struct TokenData {
    pub token: String,
    pub refresh_token: Option<String>,
    pub expiry: Option<i64>,
}

/// Everything the client remembers of the session.
pub struct Session {
    /// The main token store.
    pub tokens: Option<AuthTokens>,
    pub user_info: Option<UserInfo>,
    /// The copy of the tokens that authorised requests are made with.
    pub helper_tokens: Option<TokenData>,
}

/// The server's answer to a login, as the client hands it on.
pub struct AuthResponse {
    pub success: bool,
    pub message: String,
    pub token: Option<String>,
    pub refresh_token: Option<String>,
}

/// The outcome of a reachability check of the server.
pub struct CheckApiResult {
    pub success: bool,
    pub status_code: i32,
    pub message: String,
}

/// The request helpers' copy of `t`, with no known expiry.
pub open spec fn helper_copy(t: AuthTokens) -> TokenData {
    TokenData { token: t.token, refresh_token: Some(t.refresh_token), expiry: None }
}

fn helper_data(t: &AuthTokens) -> (r: TokenData)
    ensures
        r == helper_copy(*t),
{
    TokenData { token: t.token.clone(), refresh_token: Some(t.refresh_token.clone()), expiry: None }
}

impl Session {
    /// A session with nothing in it.
    pub fn new() -> (r: Self)
        ensures
            r.tokens is None,
            r.user_info is None,
            r.helper_tokens is None,
    {
        Session { tokens: None, user_info: None, helper_tokens: None }
    }
}

/// Stores new tokens in the main store and in the request helpers' copy.
pub fn set_tokens(session: &mut Session, tokens: AuthTokens)
    ensures
        final(session).tokens == Some(tokens),
        final(session).helper_tokens == Some(helper_copy(tokens)),
        final(session).user_info == old(session).user_info,
{
    session.helper_tokens = Some(helper_data(&tokens));
    session.tokens = Some(tokens);
}

/// Forgets the tokens of the main store.
pub fn clear_tokens(session: &mut Session)
    ensures
        final(session).tokens is None,
        final(session).user_info == old(session).user_info,
        final(session).helper_tokens == old(session).helper_tokens,
{
    session.tokens = None;
}

/// The tokens of the main store.
pub fn get_tokens(session: &Session) -> (r: Option<AuthTokens>)
    ensures
        r == session.tokens,
{
    match &session.tokens {
        Some(t) => Some(t.clone()),
        None => None,
    }
}

/// Whether the main store holds tokens.
pub fn has_tokens(session: &Session) -> (r: bool)
    ensures
        r == session.tokens is Some,
{
    session.tokens.is_some()
}

/// Stores the signed-in user's details.
pub fn set_user_info(session: &mut Session, user_info: UserInfo)
    ensures
        final(session).user_info == Some(user_info),
        final(session).tokens == old(session).tokens,
        final(session).helper_tokens == old(session).helper_tokens,
{
    session.user_info = Some(user_info);
}

/// Forgets the signed-in user's details.
pub fn clear_user_info(session: &mut Session)
    ensures
        final(session).user_info is None,
        final(session).tokens == old(session).tokens,
        final(session).helper_tokens == old(session).helper_tokens,
{
    session.user_info = None;
}

/// The signed-in user's e-mail address.
pub fn get_user_email(session: &Session) -> (r: Option<String>)
    ensures
        r == match session.user_info {
            Some(u) => Some(u.email),
            None => None,
        },
{
    match &session.user_info {
        Some(u) => Some(u.email.clone()),
        None => None,
    }
}

/// The signed-in user's identifier.
pub fn get_user_id(session: &Session) -> (r: Option<String>)
    ensures
        r == match session.user_info {
            Some(u) => Some(u.user_id),
            None => None,
        },
{
    match &session.user_info {
        Some(u) => Some(u.user_id.clone()),
        None => None,
    }
}

/// Signs out: forgets the main store's tokens and the user's details.
pub fn logout(session: &mut Session)
    ensures
        final(session).tokens is None,
        final(session).user_info is None,
        final(session).helper_tokens == old(session).helper_tokens,
{
    clear_tokens(session);
    clear_user_info(session);
}

/// Takes into memory what was saved of an earlier session: each of the
/// tokens and the user's details replaces what is held where it was found.
pub fn initialize_tokens(session: &mut Session, saved_tokens: Option<AuthTokens>, saved_user_info: Option<UserInfo>)
    ensures
        final(session).tokens == match saved_tokens {
            Some(t) => Some(t),
            None => old(session).tokens,
        },
        final(session).user_info == match saved_user_info {
            Some(u) => Some(u),
            None => old(session).user_info,
        },
        final(session).helper_tokens == old(session).helper_tokens,
{
    if let Some(t) = saved_tokens {
        session.tokens = Some(t);
    }
    if let Some(u) = saved_user_info {
        session.user_info = Some(u);
    }
}

/// Copies the main store's tokens, where there are any, to the request
/// helpers.
pub fn initialize_tokens_from_main_storage(session: &mut Session)
    ensures
        final(session).tokens == old(session).tokens,
        final(session).user_info == old(session).user_info,
        final(session).helper_tokens == match old(session).tokens {
            Some(t) => Some(helper_copy(t)),
            None => old(session).helper_tokens,
        },
{
    let copy = match &session.tokens {
        Some(t) => Some(helper_data(t)),
        None => None,
    };
    if let Some(d) = copy {
        session.helper_tokens = Some(d);
    }
}

/// Whether the request helpers hold tokens, after copying them from the
/// main store where they held none.
pub fn ensure_tokens_available(session: &mut Session) -> (r: bool)
    ensures
        final(session).tokens == old(session).tokens,
        final(session).user_info == old(session).user_info,
        final(session).helper_tokens == match old(session).helper_tokens {
            Some(d) => Some(d),
            None => match old(session).tokens {
                Some(t) => Some(helper_copy(t)),
                None => None,
            },
        },
        r == final(session).helper_tokens is Some,
{
    if session.helper_tokens.is_some() {
        return true;
    }
    initialize_tokens_from_main_storage(session);
    session.helper_tokens.is_some()
}

} // verus!
