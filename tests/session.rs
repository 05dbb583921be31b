use motek_auth::session::{
    clear_tokens, clear_user_info, ensure_tokens_available, get_tokens, get_user_email,
    get_user_id, has_tokens, initialize_tokens, initialize_tokens_from_main_storage, logout,
    set_tokens, set_user_info, AuthTokens, Session, UserInfo,
};

fn pair(t: &str, r: &str) -> AuthTokens {
    AuthTokens { token: t.to_string(), refresh_token: r.to_string() }
}

fn who() -> UserInfo {
    UserInfo { email: "alice@example.com".to_string(), user_id: "id-1".to_string() }
}

#[test]
fn set_and_get_tokens() {
    let mut s = Session::new();
    assert!(!has_tokens(&s));
    assert!(get_tokens(&s).is_none());
    set_tokens(&mut s, pair("a", "r"));
    assert!(has_tokens(&s));
    let t = get_tokens(&s).unwrap();
    assert_eq!((t.token.as_str(), t.refresh_token.as_str()), ("a", "r"));
    let h = s.helper_tokens.as_ref().unwrap();
    assert_eq!(h.token, "a");
    assert_eq!(h.refresh_token.as_deref(), Some("r"));
    assert_eq!(h.expiry, None);
}

#[test]
fn clear_tokens_keeps_helper_copy() {
    let mut s = Session::new();
    set_tokens(&mut s, pair("a", "r"));
    clear_tokens(&mut s);
    assert!(!has_tokens(&s));
    assert!(s.helper_tokens.is_some());
}

#[test]
fn user_info_round_trip() {
    let mut s = Session::new();
    assert_eq!(get_user_email(&s), None);
    set_user_info(&mut s, who());
    assert_eq!(get_user_email(&s).as_deref(), Some("alice@example.com"));
    assert_eq!(get_user_id(&s).as_deref(), Some("id-1"));
    clear_user_info(&mut s);
    assert_eq!(get_user_id(&s), None);
}

#[test]
fn logout_clears_tokens_and_user() {
    let mut s = Session::new();
    set_tokens(&mut s, pair("a", "r"));
    set_user_info(&mut s, who());
    logout(&mut s);
    assert!(!has_tokens(&s));
    assert_eq!(get_user_email(&s), None);
}

#[test]
fn initialize_keeps_what_was_not_saved() {
    let mut s = Session::new();
    set_user_info(&mut s, who());
    initialize_tokens(&mut s, Some(pair("saved", "saved-r")), None);
    assert_eq!(get_tokens(&s).unwrap().token, "saved");
    assert_eq!(get_user_id(&s).as_deref(), Some("id-1"));
    assert!(s.helper_tokens.is_none());
}

#[test]
fn helpers_take_tokens_from_main_store() {
    let mut s = Session::new();
    assert!(!ensure_tokens_available(&mut s));
    initialize_tokens(&mut s, Some(pair("m", "mr")), None);
    assert!(ensure_tokens_available(&mut s));
    assert_eq!(s.helper_tokens.as_ref().unwrap().token, "m");
    clear_tokens(&mut s);
    initialize_tokens_from_main_storage(&mut s);
    assert_eq!(s.helper_tokens.as_ref().unwrap().token, "m");
}
