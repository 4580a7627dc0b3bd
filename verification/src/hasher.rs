//! Password hashing: a one-way hash with a fresh random salt per call,
//! and verification against the self-describing stored hash string.

use vstd::prelude::*;

verus! {

/// Hashing failed (entropy or allocation failure).
#[derive(Debug)]
pub struct HashError;

/// The stored hash string is malformed.
#[derive(Debug)]
pub struct HashParseError;

/// Whether verifying `password` against the stored hash string `hash`
/// succeeds. The hash string carries its own algorithm, parameters and
/// salt, so this is a function of the two strings alone.
pub uninterp spec fn hash_matches(hash: Seq<char>, password: Seq<char>) -> bool;

/// Whether `hash` parses in the PHC string format that hashing produces.
pub uninterp spec fn phc_parses(hash: Seq<char>) -> bool;

/// Relies on `argon2::Argon2::hash_password` with a fresh `OsRng` salt,
/// serialized by `PasswordHash::to_string`: the PHC string it returns
/// parses back, and verification of the same password against it
/// succeeds. The salt is random, so nothing more is stated of the value.
#[verifier::external_body]
pub fn hash_password(password: &str) -> (r: Result<String, HashError>)
    ensures
        r is Ok ==> phc_parses(r->Ok_0@),
        r is Ok ==> hash_matches(r->Ok_0@, password@),
{
    let salt = argon2::password_hash::SaltString::generate(
        &mut argon2::password_hash::rand_core::OsRng,
    );
    let argon = argon2::Argon2::default();
    match argon2::PasswordHasher::hash_password(&argon, password.as_bytes(), &salt) {
        Ok(hash) => Ok(hash.to_string()),
        Err(_) => Err(HashError),
    }
}

/// Relies on `argon2::password_hash::PasswordHash::new`, which parses the
/// stored string deterministically, and `Argon2::verify_password`, which
/// recomputes the hash from the parameters and salt carried in the string
/// and compares: the outcome is a function of the two strings alone.
/// A mismatch is not an error; it returns `false`.
#[verifier::external_body]
pub fn verify_password(hash: &str, password: &str) -> (r: Result<bool, HashParseError>)
    ensures
        r is Ok <==> phc_parses(hash@),
        r is Ok ==> r->Ok_0 == hash_matches(hash@, password@),
{
    match argon2::password_hash::PasswordHash::new(hash) {
        Ok(parsed) => {
            let argon = argon2::Argon2::default();
            Ok(
                argon2::PasswordVerifier::verify_password(
                    &argon,
                    password.as_bytes(),
                    &parsed,
                ).is_ok(),
            )
        },
        Err(_) => Err(HashParseError),
    }
}

} // verus!
