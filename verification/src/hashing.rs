//! Credential hashing.
//!
//! Passwords are never stored or compared in the clear: a password is hashed
//! under a fresh random salt with a memory-hard algorithm (Argon2 with its
//! default parameters), and login compares by recomputing the hash. The
//! stored form is a self-describing PHC string that encodes the algorithm,
//! its parameters and the salt, so verification needs the string alone. A
//! malformed stored hash is a verification failure, never a crash.

use vstd::prelude::*;
use vstd::string::StringSliceAdditionalSpecFns;

use argon2::password_hash::{PasswordHash, PasswordHasher, PasswordVerifier, SaltString};

use crate::errors::ServiceError;

verus! {

/// Whether a password matches a stored PHC hash string: recomputing the hash
/// of the password under the salt and parameters the string describes yields
/// the output the string carries. A string that does not parse as a PHC hash
/// matches no password.
pub uninterp spec fn password_matches(password: Seq<char>, stored: Seq<char>) -> bool;

/// The PHC hash string of a password under a given B64 salt, with the
/// default Argon2 parameters.
pub uninterp spec fn phc_hash_of(password: Seq<char>, salt: Seq<char>) -> Seq<char>;

/// A character of the B64 alphabet (the unpadded base64 variant of the PHC
/// string format).
pub open spec fn is_b64_char(c: char) -> bool {
    ('A' <= c && c <= 'Z') || ('a' <= c && c <= 'z') || ('0' <= c && c <= '9') || c == '+' || c
        == '/'
}

/// The form of every salt the library generates: the unpadded B64 encoding
/// of sixteen random bytes. Sixteen bytes encode as twenty-two B64
/// characters, and the last character carries only the top two of its six
/// bits, so a canonical encoding ends in 'A', 'Q', 'g' or 'w'. Every string
/// of this form decodes to exactly sixteen bytes, which the hasher accepts.
pub open spec fn is_generated_salt(s: Seq<char>) -> bool {
    &&& s.len() == 22
    &&& (forall|i: int| 0 <= i < 22 ==> is_b64_char(#[trigger] s[i]))
    &&& (s[21] == 'A' || s[21] == 'Q' || s[21] == 'g' || s[21] == 'w')
}

/// Whether a password is within the hasher's length limit: the algorithm
/// takes at most 0xFFFFFFFF bytes of password. A character encodes to at
/// most four bytes, and the limit is stated over the encoded bytes.
pub open spec fn password_within_limit(password: &str) -> bool {
    password.spec_bytes().len() <= 0xFFFF_FFFF
}

/// Relies on password_hash::SaltString::generate over the operating system's
/// random source: a fresh random salt, the canonical B64 encoding of sixteen
/// random bytes. Nothing is assumed of its value beyond that form.
#[verifier::external_body]
fn generate_salt() -> (r: String)
    ensures
        is_generated_salt(r@),
{
    SaltString::generate(&mut rand_core::OsRng).as_str().to_owned()
}

/// Relies on argon2::Argon2::hash_password with the default parameters: the
/// PHC hash string is a deterministic function of the password and the salt
/// alone, and verifying the password against it succeeds. Fails only on a
/// salt the hasher rejects (one that is not canonical B64 of eight to
/// sixty-four bytes) or a password over the algorithm's byte-length limit;
/// in particular it succeeds on every salt of the generated form with an
/// in-limit password.
#[verifier::external_body]
fn argon2_hash(password: &str, salt: &str) -> (r: Result<String, ()>)
    ensures
        r matches Ok(h) ==> h@ == phc_hash_of(password@, salt@),
        r matches Ok(h) ==> password_matches(password@, h@),
        r is Err ==> !(is_generated_salt(salt@) && password_within_limit(password)),
{
    let salt = match SaltString::from_b64(salt) {
        Ok(s) => s,
        Err(_) => return Err(()),
    };
    match argon2::Argon2::default().hash_password(password.as_bytes(), &salt) {
        Ok(h) => Ok(h.to_string()),
        Err(_) => Err(()),
    }
}

/// Relies on argon2::Argon2::verify_password and PasswordHash::new: whether
/// the password matches is a deterministic function of the password and the
/// stored string alone; a stored string that does not parse matches nothing.
#[verifier::external_body]
fn argon2_verify(password: &str, stored: &str) -> (r: bool)
    ensures
        r == password_matches(password@, stored@),
{
    match PasswordHash::new(stored) {
        Ok(parsed) => argon2::Argon2::default().verify_password(password.as_bytes(), &parsed).is_ok(),
        Err(_) => false,
    }
}

/// Hashes a password under an explicitly given B64 salt. Succeeds at least
/// on every salt of the generated form with an in-limit password.
pub fn hash_password_with_salt(password: &str, salt: &str) -> (r: Result<String, ServiceError>)
    ensures
        r matches Ok(h) ==> h@ == phc_hash_of(password@, salt@),
        r matches Ok(h) ==> password_matches(password@, h@),
        r is Err ==> r == Err::<String, ServiceError>(ServiceError::InternalServerError),
        is_generated_salt(salt@) && password_within_limit(password) ==> r is Ok,
{
    match argon2_hash(password, salt) {
        Ok(h) => Ok(h),
        Err(_) => Err(ServiceError::InternalServerError),
    }
}

/// Hashes a password under a freshly generated random salt. Succeeds for
/// every password within the hasher's length limit, and the returned hash
/// verifies against the password it was computed from.
pub fn hash_password(password: &str) -> (r: Result<String, ServiceError>)
    ensures
        r matches Ok(h) ==> password_matches(password@, h@),
        r is Err ==> r == Err::<String, ServiceError>(ServiceError::InternalServerError),
        password_within_limit(password) ==> r is Ok,
{
    let salt = generate_salt();
    hash_password_with_salt(password, salt.as_str())
}

/// Whether a password matches a stored hash. A malformed stored hash is a
/// verification failure, not a crash.
pub fn verify_password(password: &str, stored: &str) -> (r: bool)
    ensures
        r == password_matches(password@, stored@),
{
    argon2_verify(password, stored)
}

} // verus!
