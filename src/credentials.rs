//! The credential verifier: bcrypt password hashes.

use vstd::prelude::*;

verus! {

/// The cost that registration hashes passwords with.
pub const DEFAULT_HASH_COST: u32 = 12;

/// What `bcrypt::verify` says of `password` against the stored `hash`:
/// whether they match, or `None` where the hash cannot be read.
pub uninterp spec fn bcrypt_verdict(password: Seq<char>, hash: Seq<char>) -> Option<bool>;

/// Relies on `bcrypt::verify`: it re-hashes the password with the cost and
/// salt read from `hash` and compares, so the result depends on the two
/// strings alone; an unreadable hash is an error.
#[verifier::external_body]
fn bcrypt_check(password: &str, hash: &str) -> (r: Option<bool>)
    ensures
        r == bcrypt_verdict(password@, hash@),
{
    bcrypt::verify(password, hash).ok()
}

/// Relies on `bcrypt::hash`: a random salt, and a hash that `bcrypt::verify`
/// accepts for the same password; an error for a cost outside 4..=31.
#[verifier::external_body]
fn bcrypt_hash(password: &str, cost: u32) -> (r: Option<String>)
    ensures
        r matches Some(h) ==> bcrypt_verdict(password@, h@) == Some(true),
{
    bcrypt::hash(password, cost).ok()
}

/// Hashes `password` with a fresh salt and the given work factor; `None`
/// when hashing fails. A hash that comes back verifies against the password.
pub fn hash_password_with_cost(password: &str, cost: u32) -> (r: Option<String>)
    ensures
        r matches Some(h) ==> bcrypt_verdict(password@, h@) == Some(true),
{
    bcrypt_hash(password, cost)
}

/// Whether `password` matches the stored `hash`. An unreadable hash fails
/// closed: the answer is `false`.
pub fn check_password(password: &str, hash: &str) -> (r: bool)
    ensures
        r == (bcrypt_verdict(password@, hash@) == Some(true)),
{
    match bcrypt_check(password, hash) {
        Some(ok) => ok,
        None => false,
    }
}

} // verus!
