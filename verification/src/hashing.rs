//! Salted one-way password hashing, through the `pbkdf2` crate and its
//! `password_hash` string format.
//!
//! The hash of a password under a salt, and whether a password verifies
//! against a stored PHC hash string, are both deterministic functions of
//! their string arguments alone; they are named here by uninterpreted spec
//! functions, and the wrappers below relate the outside calls to those
//! names.

use vstd::prelude::*;

use pbkdf2::password_hash::{PasswordHash, PasswordHasher, PasswordVerifier, SaltString};
use pbkdf2::Pbkdf2;
use rand_core::OsRng;

verus! {

/// The PHC string produced by hashing `password` under `salt` with the
/// PBKDF2 parameters fixed by this module's hashing wrapper.
pub uninterp spec fn pbkdf2_hash(password: Seq<char>, salt: Seq<char>) -> Seq<char>;

/// Whether `password` verifies against the PHC hash string `phc_hash`;
/// false when `phc_hash` is malformed.
pub uninterp spec fn pbkdf2_matches(password: Seq<char>, phc_hash: Seq<char>) -> bool;

/// Relies on `password_hash::SaltString::generate` with `rand_core::OsRng`:
/// sixteen random bytes, B64-encoded as twenty-two ASCII characters.
#[verifier::external_body]
pub(crate) fn generate_salt() -> (s: String)
    ensures
        s@.len() == 22,
{
    SaltString::generate(&mut OsRng).to_string()
}

/// Relies on `pbkdf2::Pbkdf2`'s `PasswordHasher::hash_password_customized`
/// (through `SaltString::from_b64` on the salt): with the work factor fixed
/// here, the PHC string is a function of password and salt alone, and
/// `PasswordVerifier::verify_password` recomputes that same function with
/// the parameters recorded in the PHC string and compares outputs, so the
/// produced hash verifies against the same password.
#[verifier::external_body]
pub(crate) fn hash_password(password: &str, salt: &str) -> (r: Result<String, String>)
    ensures
        r matches Ok(h) ==> h@ == pbkdf2_hash(password@, salt@),
        r matches Ok(h) ==> pbkdf2_matches(password@, h@),
{
    let salt = match SaltString::from_b64(salt) {
        Ok(s) => s,
        Err(e) => {
            return Err(format!("Failed to hash password.\n{e:?}"));
        },
    };
    let params = pbkdf2::Params { rounds: 10000, output_length: 32 };
    match Pbkdf2.hash_password_customized(password.as_bytes(), None, None, params, &salt) {
        Ok(h) => Ok(h.to_string()),
        Err(e) => Err(format!("Failed to hash password.\n{e:?}")),
    }
}

/// Relies on `password_hash::PasswordHash::new` and `pbkdf2::Pbkdf2`'s
/// `PasswordVerifier::verify_password`: both are functions of the password
/// and the PHC hash string alone; a malformed hash string and a mismatched
/// password both report false.
#[verifier::external_body]
pub(crate) fn verify_password(password: &str, phc_hash: &str) -> (r: bool)
    ensures
        r == pbkdf2_matches(password@, phc_hash@),
{
    match PasswordHash::new(phc_hash) {
        Ok(parsed) => Pbkdf2.verify_password(password.as_bytes(), &parsed).is_ok(),
        Err(_) => false,
    }
}

} // verus!
