use motek_auth::credentials::{check_password, hash_password_with_cost};
use motek_auth::crypto::{hash_password, verify_password};

#[test]
fn bcrypt_hash_verifies() {
    let h = hash_password_with_cost("Str0ng!Pass", 4).unwrap();
    assert_ne!(h, "Str0ng!Pass");
    assert!(h.starts_with("$2"));
    assert!(check_password("Str0ng!Pass", &h));
    assert!(!check_password("Str0ng!Pasz", &h));
}

#[test]
fn bcrypt_malformed_hash_fails_closed() {
    assert!(!check_password("Str0ng!Pass", "not a hash"));
    assert!(!check_password("", ""));
}

#[test]
fn bcrypt_cost_out_of_range() {
    assert!(hash_password_with_cost("Str0ng!Pass", 3).is_none());
}

#[test]
fn argon2_hash_verifies() {
    let h = hash_password("Str0ng!Pass").unwrap();
    assert!(h.starts_with("$argon2"));
    // Each hash has its own salt.
    assert_ne!(hash_password("Str0ng!Pass").unwrap(), h);
    assert!(verify_password(&h, "Str0ng!Pass"));
    assert!(!verify_password(&h, "Str0ng!Pasz"));
    assert!(!verify_password("garbage", "Str0ng!Pass"));
}

