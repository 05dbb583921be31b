use motek_auth::token::{create_jwt, verify_jwt, TokenError, ACCESS_TTL_SECS};

const NOW: u64 = 1_700_000_000;
const SECRET: &str = "unit-test-signing-key";

#[test]
fn issued_token_round_trips() {
    let t = create_jwt("user-1", "web", SECRET, NOW).unwrap();
    assert_eq!(t.split('.').count(), 3);
    let c = verify_jwt(&t, SECRET, NOW).unwrap();
    assert_eq!(c.sub, "user-1");
    assert_eq!(c.platform, "web");
    assert_eq!(c.exp, NOW + ACCESS_TTL_SECS);
}

#[test]
fn token_valid_until_expiry_instant() {
    let t = create_jwt("user-1", "ios", SECRET, NOW).unwrap();
    let c = verify_jwt(&t, SECRET, NOW + 86_400).unwrap();
    assert_eq!(c.platform, "ios");
    assert_eq!(verify_jwt(&t, SECRET, NOW + 86_401).err(), Some(TokenError::Expired));
}

#[test]
fn wrong_secret_is_bad_signature() {
    let t = create_jwt("user-1", "web", SECRET, NOW).unwrap();
    assert_eq!(verify_jwt(&t, "another-key", NOW).err(), Some(TokenError::BadSignature));
}

#[test]
fn garbage_is_malformed() {
    assert_eq!(verify_jwt("not-a-token", SECRET, NOW).err(), Some(TokenError::Malformed));
    assert_eq!(verify_jwt("", SECRET, NOW).err(), Some(TokenError::Malformed));
}

#[test]
fn tampered_token_is_refused() {
    let t = create_jwt("0b4c1f0e-2a4d-4c55-9a51-3f7f2b8d9e10", "android", SECRET, NOW).unwrap();
    let header_end = t.find('.').unwrap();
    let bytes = t.as_bytes();
    for i in 0..bytes.len() {
        if bytes[i] == b'.' {
            continue;
        }
        let mut b = bytes.to_vec();
        b[i] = if b[i] == b'A' { b'B' } else { b'A' };
        let forged = String::from_utf8(b).unwrap();
        let r = verify_jwt(&forged, SECRET, NOW);
        if i > header_end {
            assert_eq!(r.err(), Some(TokenError::BadSignature), "byte {}", i);
        } else {
            assert!(r.is_err(), "byte {}", i);
        }
    }
}

#[test]
fn claims_survive_unusual_text() {
    let sub = "a \"quoted\" sub with ünïcode and \\ slashes";
    let t = create_jwt(sub, "", SECRET, NOW).unwrap();
    let c = verify_jwt(&t, SECRET, NOW).unwrap();
    assert_eq!(c.sub, sub);
    assert_eq!(c.platform, "");
}
