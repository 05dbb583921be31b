use motek_auth::refresh::{generate_refresh_token, RefreshTokenStore, StoreError, REFRESH_TOKEN_LEN, SECS_PER_DAY};
use std::collections::HashSet;

const NOW: i64 = 1_700_000_000;

fn tok(c: char) -> String {
    std::iter::repeat(c).take(REFRESH_TOKEN_LEN).collect()
}

#[test]
fn generated_tokens_have_the_shape() {
    let t = generate_refresh_token();
    assert_eq!(t.len(), REFRESH_TOKEN_LEN);
    assert!(t.chars().all(|c| c.is_ascii_alphanumeric()));
}

#[test]
fn ten_thousand_tokens_are_distinct() {
    let mut seen = HashSet::new();
    for _ in 0..10_000 {
        assert!(seen.insert(generate_refresh_token()));
    }
}

#[test]
fn forced_collision_is_refused() {
    let mut s = RefreshTokenStore::new();
    assert!(s.insert_refresh_token(1, 10, tok('a'), NOW, NOW + 5).is_ok());
    let r = s.insert_refresh_token(2, 20, tok('a'), NOW, NOW + 5);
    assert_eq!(r.err(), Some(StoreError::DuplicateToken));
    // The first row is untouched and still belongs to its user.
    assert!(s.token_belongs_to_user(&tok('a'), 10));
    assert!(!s.token_belongs_to_user(&tok('a'), 20));
}

#[test]
fn created_row_fields() {
    let mut s = RefreshTokenStore::new();
    let row = s.create_refresh_token(42, 30, NOW).unwrap();
    assert_eq!(row.user_id, 42);
    assert_eq!(row.created_at, NOW);
    assert_eq!(row.expires_at, NOW + 30 * SECS_PER_DAY);
    assert!(!row.revoked);
    assert_eq!(row.token.len(), REFRESH_TOKEN_LEN);
    let found = s.get_refresh_token(&row.token).unwrap();
    assert_eq!(found.id, row.id);
    assert_eq!(found.user_id, 42);
}

#[test]
fn lookup_of_unknown_token_is_none() {
    let s = RefreshTokenStore::new();
    assert!(s.get_refresh_token("missing").is_none());
    assert!(!s.token_belongs_to_user("missing", 1));
}

#[test]
fn revoke_is_idempotent() {
    let mut s = RefreshTokenStore::new();
    s.insert_refresh_token(1, 10, tok('a'), NOW, NOW + 5).unwrap();
    s.insert_refresh_token(2, 10, tok('b'), NOW, NOW + 5).unwrap();
    s.revoke_refresh_token(&tok('a'));
    s.revoke_refresh_token(&tok('a'));
    s.revoke_refresh_token("nobody-holds-this");
    assert!(s.get_refresh_token(&tok('a')).unwrap().revoked);
    assert!(!s.get_refresh_token(&tok('b')).unwrap().revoked);
}

#[test]
fn revoke_all_counts_the_users_rows() {
    let mut s = RefreshTokenStore::new();
    s.insert_refresh_token(1, 10, tok('a'), NOW, NOW + 5).unwrap();
    s.insert_refresh_token(2, 11, tok('b'), NOW, NOW + 5).unwrap();
    s.insert_refresh_token(3, 10, tok('c'), NOW, NOW + 5).unwrap();
    assert_eq!(s.revoke_all_refresh_tokens_for_user(10), 2);
    assert!(s.get_refresh_token(&tok('a')).unwrap().revoked);
    assert!(!s.get_refresh_token(&tok('b')).unwrap().revoked);
    assert!(s.get_refresh_token(&tok('c')).unwrap().revoked);
    assert_eq!(s.revoke_all_refresh_tokens_for_user(99), 0);
}

#[test]
fn sweep_removes_expired_and_revoked() {
    let mut s = RefreshTokenStore::new();
    s.insert_refresh_token(1, 10, tok('a'), NOW, NOW - 1).unwrap();
    s.insert_refresh_token(2, 10, tok('b'), NOW, NOW).unwrap();
    s.insert_refresh_token(3, 10, tok('c'), NOW, NOW + 100).unwrap();
    s.revoke_refresh_token(&tok('c'));
    assert_eq!(s.cleanup_expired_refresh_tokens(NOW), 2);
    assert!(s.get_refresh_token(&tok('a')).is_none());
    assert!(s.get_refresh_token(&tok('b')).is_some());
    assert!(s.get_refresh_token(&tok('c')).is_none());
    assert_eq!(s.cleanup_expired_refresh_tokens(NOW), 0);
}
