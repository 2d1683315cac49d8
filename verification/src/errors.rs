//! The error taxonomy of the service.
//!
//! Every failure of identity resolution, authorization or request handling
//! is one of these variants; the HTTP layer maps each variant to a status
//! code and, for authentication failures, a `WWW-Authenticate` challenge.

use vstd::prelude::*;

verus! {

/// A terminal failure of the current request. None of these is retried
/// internally; the surrounding handler surfaces the mapped status code with
/// a stable, user-safe message that never leaks internal diagnostic detail.
#[derive(Clone, Copy, Debug, PartialEq, Eq, Structural)]
pub enum ServiceError {
    /// A store or pool failure, or an unexpected, unclassified failure.
    InternalServerError,
    /// Registration with a mail address that an existing user already holds.
    UserExists,
    /// An update request in which every updatable field is absent.
    EmptyUpdate,
    /// The request carries no `Authorization` header.
    MissingToken,
    /// The bearer token is malformed or its signature does not verify.
    InvalidToken,
    /// The bearer token's expiry, plus the configured leeway, has passed.
    ExpiredToken,
    /// Login with an unknown mail address or a wrong password.
    InvalidCredentials,
    /// The resource chain resolves, but the principal does not own its root.
    Forbidden,
    /// A resource of the addressed chain is absent or linked to a different
    /// parent than the one the path names.
    NotFound,
}

/// The HTTP status code each error maps to.
pub open spec fn spec_status_code(e: ServiceError) -> u16 {
    match e {
        ServiceError::InternalServerError => 500,
        ServiceError::UserExists => 403,
        ServiceError::EmptyUpdate => 400,
        ServiceError::MissingToken => 401,
        ServiceError::InvalidToken => 401,
        ServiceError::ExpiredToken => 401,
        ServiceError::InvalidCredentials => 401,
        ServiceError::Forbidden => 403,
        ServiceError::NotFound => 404,
    }
}

/// Whether the error is an authentication failure, answered with a
/// `WWW-Authenticate: Bearer` challenge.
pub open spec fn spec_is_auth_error(e: ServiceError) -> bool {
    match e {
        ServiceError::MissingToken => true,
        ServiceError::InvalidToken => true,
        ServiceError::ExpiredToken => true,
        ServiceError::InvalidCredentials => true,
        _ => false,
    }
}

/// The stable, user-safe message of each error.
pub open spec fn spec_message(e: ServiceError) -> Seq<char> {
    match e {
        ServiceError::InternalServerError => "Internal server error"@,
        ServiceError::UserExists => "User with this email already exists"@,
        ServiceError::EmptyUpdate => "Update request changes nothing"@,
        ServiceError::MissingToken => "Missing access token"@,
        ServiceError::InvalidToken => "Invalid access token"@,
        ServiceError::ExpiredToken => "Expired access token"@,
        ServiceError::InvalidCredentials => "Invalid user credentials"@,
        ServiceError::Forbidden => "Access to this resource is forbidden"@,
        ServiceError::NotFound => "Resource not found"@,
    }
}

impl ServiceError {
    /// The HTTP status code this error maps to.
    pub fn status_code(&self) -> (code: u16)
        ensures
            code == spec_status_code(*self),
    {
        match self {
            ServiceError::InternalServerError => 500,
            ServiceError::UserExists => 403,
            ServiceError::EmptyUpdate => 400,
            ServiceError::MissingToken => 401,
            ServiceError::InvalidToken => 401,
            ServiceError::ExpiredToken => 401,
            ServiceError::InvalidCredentials => 401,
            ServiceError::Forbidden => 403,
            ServiceError::NotFound => 404,
        }
    }

    /// The extra response headers this error carries: authentication
    /// failures challenge the client for a bearer token, the rest add none.
    pub fn headers(&self) -> (r: Option<Vec<(&'static str, &'static str)>>)
        ensures
            spec_is_auth_error(*self) ==> (r matches Some(hs) && hs@.len() == 1
                && hs@[0].0@ == "WWW-Authenticate"@ && hs@[0].1@ == "Bearer"@),
            !spec_is_auth_error(*self) ==> r is None,
    {
        match self {
            ServiceError::MissingToken
            | ServiceError::InvalidToken
            | ServiceError::ExpiredToken
            | ServiceError::InvalidCredentials => Some(vec![("WWW-Authenticate", "Bearer")]),
            _ => None,
        }
    }

    /// The stable, user-safe message of this error.
    pub fn message(&self) -> (m: String)
        ensures
            m@ == spec_message(*self),
    {
        match self {
            ServiceError::InternalServerError => "Internal server error".to_owned(),
            ServiceError::UserExists => "User with this email already exists".to_owned(),
            ServiceError::EmptyUpdate => "Update request changes nothing".to_owned(),
            ServiceError::MissingToken => "Missing access token".to_owned(),
            ServiceError::InvalidToken => "Invalid access token".to_owned(),
            ServiceError::ExpiredToken => "Expired access token".to_owned(),
            ServiceError::InvalidCredentials => "Invalid user credentials".to_owned(),
            ServiceError::Forbidden => "Access to this resource is forbidden".to_owned(),
            ServiceError::NotFound => "Resource not found".to_owned(),
        }
    }
}

} // verus!
