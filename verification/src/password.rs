//! Password storage: Argon2id hashes in PHC string form.

use argon2::password_hash::rand_core::OsRng;
use argon2::password_hash::{PasswordHash, PasswordHasher, PasswordVerifier, SaltString};
use argon2::Argon2;
use vstd::prelude::*;
use vstd::string::StringSliceAdditionalSpecFns;

verus! {

/// Whether `password_hash::PasswordHash::new` parses the text as a PHC string.
pub uninterp spec fn spec_phc_parses(phc: Seq<char>) -> bool;

/// Whether `Argon2::default().verify_password` accepts the password's bytes against
/// the parsed PHC string (the parameters and salt are those the string records).
pub uninterp spec fn spec_argon2_accepts(password: Seq<u8>, phc: Seq<char>) -> bool;

/// Calls `Argon2::default().hash_password` with a salt that `SaltString::generate`
/// draws from `OsRng`, and renders the hash as a PHC string.
/// The crate refuses passwords longer than `u32::MAX` bytes, hence the `requires`.
/// Claimed, as the crate's documentation shows by example: the string parses as a PHC
/// string and `verify_password` accepts the same password against it. The salt, and so
/// the string itself, is random: nothing more is claimed. `OsRng` panics when the
/// operating system's random source fails; that is not excluded.
#[verifier::external_body]
fn argon2_hash(password: &[u8]) -> (phc: String)
    requires
        password@.len() <= u32::MAX,
    ensures
        spec_phc_parses(phc@),
        spec_argon2_accepts(password@, phc@),
{
    let salt = SaltString::generate(&mut OsRng);
    match Argon2::default().hash_password(password, &salt) {
        Ok(hash) => hash.to_string(),
        Err(_) => String::new(),
    }
}

/// Calls `PasswordHash::new`. Claimed: the result says whether it parsed.
#[verifier::external_body]
fn phc_parses(phc: &str) -> (parses: bool)
    ensures
        parses == spec_phc_parses(phc@),
{
    PasswordHash::new(phc).is_ok()
}

/// Calls `Argon2::default().verify_password` against `PasswordHash::new(phc)`, which the
/// `requires` guarantees to parse. Claimed: the result is the named verdict.
#[verifier::external_body]
fn argon2_verify(password: &[u8], phc: &str) -> (accepted: bool)
    requires
        spec_phc_parses(phc@),
    ensures
        accepted == spec_argon2_accepts(password@, phc@),
{
    match PasswordHash::new(phc) {
        Ok(parsed) => Argon2::default().verify_password(password, &parsed).is_ok(),
        Err(_) => false,
    }
}

/// The PHC string stored for a new account: a salted Argon2id hash of the password.
/// Whatever salt is drawn, the same password is accepted against it.
pub fn hash_password(password: &str) -> (phc: String)
    requires
        password.spec_bytes().len() <= u32::MAX,
    ensures
        spec_phc_parses(phc@),
        spec_argon2_accepts(password.spec_bytes(), phc@),
{
    argon2_hash(password.as_bytes())
}

/// The verdict on a login password against the stored PHC string when that string
/// parses (the caller checks it with `stored_hash_parses` first).
pub fn password_matches(password: &str, stored_phc: &str) -> (accepted: bool)
    requires
        spec_phc_parses(stored_phc@),
    ensures
        accepted == spec_argon2_accepts(password.spec_bytes(), stored_phc@),
{
    argon2_verify(password.as_bytes(), stored_phc)
}

/// Whether a stored password hash is a well-formed PHC string.
pub fn stored_hash_parses(stored_phc: &str) -> (parses: bool)
    ensures
        parses == spec_phc_parses(stored_phc@),
{
    phc_parses(stored_phc)
}

/// The verdict on a login password against a stored hash: `None` when the stored
/// string is not a PHC string (the login then cannot proceed), otherwise whether the
/// password is accepted.
pub fn check_password(password: &str, stored_phc: &str) -> (verdict: Option<bool>)
    ensures
        verdict == if spec_phc_parses(stored_phc@) {
            Some(spec_argon2_accepts(password.spec_bytes(), stored_phc@))
        } else {
            None
        },
{
    if stored_hash_parses(stored_phc) {
        Some(password_matches(password, stored_phc))
    } else {
        None
    }
}

} // verus!
