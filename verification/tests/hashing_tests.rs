use backend::hashing::{hash_password, hash_password_with_salt, verify_password};
use backend::ServiceError;

#[test]
fn hash_then_verify_succeeds() {
    let hash = hash_password("correct horse battery staple").expect("hashing succeeds");
    assert!(verify_password("correct horse battery staple", &hash));
}

#[test]
fn wrong_password_fails() {
    let hash = hash_password("correct horse battery staple").expect("hashing succeeds");
    assert!(!verify_password("incorrect horse battery staple", &hash));
    assert!(!verify_password("", &hash));
}

#[test]
fn empty_password_round_trip() {
    let hash = hash_password("").expect("hashing succeeds");
    assert!(verify_password("", &hash));
    assert!(!verify_password("x", &hash));
}

#[test]
fn hash_with_salt_is_deterministic() {
    let salt = "c2FsdHNhbHRzYWx0c2FsdA";
    let h1 = hash_password_with_salt("password", salt).expect("hashing succeeds");
    let h2 = hash_password_with_salt("password", salt).expect("hashing succeeds");
    assert_eq!(h1, h2);
    assert!(verify_password("password", &h1));
    assert!(!verify_password("Password", &h1));
}

#[test]
fn hash_with_malformed_salt_is_internal_error() {
    let r = hash_password_with_salt("password", "!!! not base64 !!!");
    assert_eq!(r, Err(ServiceError::InternalServerError));
}

#[test]
fn hash_with_too_short_salt_is_internal_error() {
    // Four B64 characters decode to three bytes, under the hasher's
    // eight-byte minimum.
    let r = hash_password_with_salt("password", "AAAA");
    assert_eq!(r, Err(ServiceError::InternalServerError));
}

#[test]
fn hash_with_generated_form_salt_succeeds() {
    // Twenty-two B64 characters ending in a canonical final character: the
    // form every generated salt has. Hashing is owed to succeed on it.
    let h = hash_password_with_salt("password", "AAAAAAAAAAAAAAAAAAAAAA").expect("owed");
    assert!(verify_password("password", &h));
    // A non-canonical final character does not decode; the hasher rejects it.
    let r = hash_password_with_salt("password", "AAAAAAAAAAAAAAAAAAAAAB");
    assert_eq!(r, Err(ServiceError::InternalServerError));
}

#[test]
fn malformed_stored_hash_is_verification_failure() {
    assert!(!verify_password("password", "not a phc string"));
    assert!(!verify_password("password", ""));
    assert!(!verify_password("password", "$argon2id$garbage"));
}

#[test]
fn stored_hash_is_self_describing() {
    let hash = hash_password("password").expect("hashing succeeds");
    assert!(hash.starts_with("$argon2"));
}
