//! Password hashing and verification (PBKDF2, PHC string format).

use pbkdf2::password_hash::rand_core::OsRng;
use pbkdf2::password_hash::{PasswordHash, PasswordHasher, PasswordVerifier, SaltString};
use pbkdf2::Pbkdf2;
use vstd::prelude::*;

verus! {

/// Whether PBKDF2 verification accepts `password` against the PHC string `hash`.
pub uninterp spec fn hash_accepts(password: Seq<char>, hash: Seq<char>) -> bool;

/// A PHC string always starts with the `$` separator.
pub open spec fn is_phc_shaped(hash: Seq<char>) -> bool {
    hash.len() > 0 && hash[0] == '$'
}

/// Relies on `Pbkdf2::hash_password` with a fresh `SaltString::generate(&mut OsRng)`:
/// with the default parameters it cannot fail, its output is a PHC string
/// (`$pbkdf2-sha256$...`) and `verify_password` accepts the password against it.
#[verifier::external_body]
fn pbkdf2_hash(password: &str) -> (r: String)
    ensures
        is_phc_shaped(r@),
        hash_accepts(password@, r@),
{
    let salt = SaltString::generate(&mut OsRng);
    Pbkdf2.hash_password(password.as_bytes(), &salt).unwrap().to_string()
}

/// Relies on `PasswordHash::new` followed by `Pbkdf2::verify_password`: a string
/// that is empty or does not start with `$` is refused by `PasswordHash::new`.
#[verifier::external_body]
fn pbkdf2_verify(password: &str, hash: &str) -> (r: bool)
    ensures
        r == hash_accepts(password@, hash@),
        !is_phc_shaped(hash@) ==> !r,
{
    match PasswordHash::new(hash) {
        Ok(parsed) => Pbkdf2.verify_password(password.as_bytes(), &parsed).is_ok(),
        Err(_) => false,
    }
}

/// Derives a salted hash of `password`; the salt is drawn at random and
/// stored inside the returned string.
pub fn to_hash(password: &str) -> (r: String)
    ensures
        is_phc_shaped(r@),
        hash_accepts(password@, r@),
{
    pbkdf2_hash(password)
}

/// Checks `password` against a stored hash; malformed hashes give `false`.
pub fn check_hash(password: &str, hash: &str) -> (r: bool)
    ensures
        r == hash_accepts(password@, hash@),
        !is_phc_shaped(hash@) ==> !r,
{
    pbkdf2_verify(password, hash)
}

} // verus!
