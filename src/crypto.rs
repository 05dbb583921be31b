//! Argon2 password hashes, each under its own random salt.

use vstd::prelude::*;
use vstd::utf8::encode_utf8;

verus! {

/// What `argon2::verify_encoded` says of `password` against `hash`: whether
/// they match, or `None` where the hash cannot be read.
pub uninterp spec fn argon2_verdict(hash: Seq<char>, password: Seq<char>) -> Option<bool>;

/// Length of the salt drawn for each hash, in bytes.
pub const SALT_LEN: usize = 16;

/// Relies on `rand::rng()` drawing a `[u8; 16]` from `StandardUniform`:
/// sixteen random bytes.
#[verifier::external_body]
fn random_salt() -> (r: Vec<u8>)
    ensures
        r@.len() == SALT_LEN,
{
    rand::Rng::random::<[u8; SALT_LEN]>(&mut rand::rng()).to_vec()
}

/// Relies on `argon2::hash_encoded` with `Config::default()`: the encoded
/// hash carries the salt and parameters, and `argon2::verify_encoded`
/// accepts it for the same password. With the default configuration it
/// fails only for a password over `u32::MAX` bytes or a salt under 8 or over
/// `u32::MAX` bytes.
#[verifier::external_body]
fn argon2_hash(password: &str, salt: &[u8]) -> (r: Option<String>)
    ensures
        r matches Some(h) ==> argon2_verdict(h@, password@) == Some(true),
        encode_utf8(password@).len() <= u32::MAX && 8 <= salt@.len() <= u32::MAX ==> r is Some,
{
    argon2::hash_encoded(password.as_bytes(), salt, &argon2::Config::default()).ok()
}

/// Relies on `argon2::verify_encoded`: it re-hashes the password with the
/// parameters read from `hash` and compares; an unreadable hash is an error.
#[verifier::external_body]
fn argon2_check(hash: &str, password: &str) -> (r: Option<bool>)
    ensures
        r == argon2_verdict(hash@, password@),
{
    argon2::verify_encoded(hash, password.as_bytes()).ok()
}

/// The Argon2 hash of `password` under a fresh random salt; `None` only for
/// a password over `u32::MAX` bytes.
pub fn hash_password(password: &str) -> (r: Option<String>)
    ensures
        r matches Some(h) ==> argon2_verdict(h@, password@) == Some(true),
        encode_utf8(password@).len() <= u32::MAX ==> r is Some,
{
    let salt = random_salt();
    argon2_hash(password, salt.as_slice())
}

/// Whether `password` matches the Argon2 `hash`. An unreadable hash fails
/// closed: the answer is `false`.
pub fn verify_password(hash: &str, password: &str) -> (r: bool)
    ensures
        r == (argon2_verdict(hash@, password@) == Some(true)),
{
    match argon2_check(hash, password) {
        Some(ok) => ok,
        None => false,
    }
}

} // verus!
