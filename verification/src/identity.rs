//! The identity resolver.
//!
//! Converts an inbound request's `Authorization` header into a verified,
//! time-bounded principal, or a typed error: an absent header is
//! `MissingToken`, an unreadable one is `InvalidToken`; otherwise an
//! expected `"Bearer "` prefix is stripped (its absence is not itself an
//! error — a string that is no token is rejected during verification), the
//! token is verified under the process-wide secret, and the claims' subject
//! is parsed as the id of the user to load. The resolver is a pure function
//! of the header, the configuration and the clock; the store read it needs
//! is handed in as a plain value.

use vstd::prelude::*;

use crate::errors::ServiceError;
use crate::ids::{parse_uuid, uuid_of};
use crate::token::{decoded_claims, token_verdict, verify_token, Claims, ClaimsView, JWTConfig, TokenError};

verus! {

/// The expiry leeway, in seconds, granted to tolerate clock skew between
/// the issuing and the verifying machine.
pub const LEEWAY_SECS: u64 = 60;

/// The `Authorization` header of a request, as the transport layer hands it
/// over: absent, present but not readable as text, or its text value.
#[derive(Debug, Clone)]
pub enum AuthHeader {
    Missing,
    Unreadable,
    Value(String),
}

/// The mathematical value of an `Authorization` header.
pub enum AuthHeaderView {
    Missing,
    Unreadable,
    Value(Seq<char>),
}

impl View for AuthHeader {
    type V = AuthHeaderView;

    open spec fn view(&self) -> AuthHeaderView {
        match self {
            AuthHeader::Missing => AuthHeaderView::Missing,
            AuthHeader::Unreadable => AuthHeaderView::Unreadable,
            AuthHeader::Value(s) => AuthHeaderView::Value(s@),
        }
    }
}

/// The header value with an expected `"Bearer "` prefix stripped; a value
/// without the prefix is passed on unchanged.
pub open spec fn strip_bearer_spec(h: Seq<char>) -> Seq<char> {
    if h.len() >= 7 && h.subrange(0, 7) == "Bearer "@ {
        h.subrange(7, h.len() as int)
    } else {
        h
    }
}

/// Strips an expected `"Bearer "` prefix from the header value.
pub fn strip_bearer(header: &str) -> (r: &str)
    ensures
        r@ == strip_bearer_spec(header@),
{
    proof {
        reveal_strlit("Bearer ");
    }
    let n = header.unicode_len();
    let prefixed = n >= 7 && header.get_char(0) == 'B' && header.get_char(1) == 'e'
        && header.get_char(2) == 'a' && header.get_char(3) == 'r' && header.get_char(4) == 'e'
        && header.get_char(5) == 'r' && header.get_char(6) == ' ';
    if prefixed {
        proof {
            assert(header@.subrange(0, 7) =~= "Bearer "@);
        }
        header.substring_char(7, n)
    } else {
        proof {
            if header@.len() >= 7 && header@.subrange(0, 7) == "Bearer "@ {
                assert(header@[0] == "Bearer "@[0]);
                assert(header@[1] == "Bearer "@[1]);
                assert(header@[2] == "Bearer "@[2]);
                assert(header@[3] == "Bearer "@[3]);
                assert(header@[4] == "Bearer "@[4]);
                assert(header@[5] == "Bearer "@[5]);
                assert(header@[6] == "Bearer "@[6]);
            }
        }
        header
    }
}

/// The verdict of resolving an `Authorization` header to claims at a given
/// time: an absent header is `MissingToken`, an unreadable one is
/// `InvalidToken`, and the verdict of the token codec on the remaining
/// value, with the `"Bearer "` prefix stripped, is mapped onto the service
/// error taxonomy.
pub open spec fn resolve_verdict(
    header: AuthHeaderView,
    secret: Seq<char>,
    now: u64,
    leeway: u64,
) -> Result<ClaimsView, ServiceError> {
    match header {
        AuthHeaderView::Missing => Err(ServiceError::MissingToken),
        AuthHeaderView::Unreadable => Err(ServiceError::InvalidToken),
        AuthHeaderView::Value(h) => match token_verdict(strip_bearer_spec(h), secret, now, leeway) {
            Ok(c) => Ok(c),
            Err(TokenError::MalformedOrBadSignature) => Err(ServiceError::InvalidToken),
            Err(TokenError::Expired) => Err(ServiceError::ExpiredToken),
        },
    }
}

/// Resolves a request's `Authorization` header to verified claims under the
/// process-wide configuration, at the given time, with the fixed leeway.
pub fn resolve_claims(header: &AuthHeader, config: &JWTConfig, now: u64) -> (r: Result<
    Claims,
    ServiceError,
>)
    ensures
        resolve_verdict(header@, config.key@, now, LEEWAY_SECS) matches Ok(cv) ==> (r matches Ok(c)
            && c@ == cv),
        resolve_verdict(header@, config.key@, now, LEEWAY_SECS) matches Err(e) ==> r == Err::<
            Claims,
            ServiceError,
        >(e),
{
    match header {
        AuthHeader::Missing => Err(ServiceError::MissingToken),
        AuthHeader::Unreadable => Err(ServiceError::InvalidToken),
        AuthHeader::Value(h) => {
            let token = strip_bearer(h.as_str());
            match verify_token(token, config.key.as_str(), now, LEEWAY_SECS) {
                Ok(c) => Ok(c),
                Err(TokenError::MalformedOrBadSignature) => Err(ServiceError::InvalidToken),
                Err(TokenError::Expired) => Err(ServiceError::ExpiredToken),
            }
        },
    }
}

/// Law: the resolver's error taxonomy. A request without an `Authorization`
/// header is `MissingToken` and one whose header is unreadable is
/// `InvalidToken`, whatever the configuration and the time; for a readable
/// header the codec's verdict on the value (prefix stripped) decides:
/// a token that does not decode is `InvalidToken`, one past its expiry plus
/// leeway is `ExpiredToken`, and a valid one resolves to its claims.
pub proof fn lemma_resolver_taxonomy(header: Seq<char>, secret: Seq<char>, now: u64, leeway: u64)
    ensures
        resolve_verdict(AuthHeaderView::Missing, secret, now, leeway) == Err::<
            ClaimsView,
            ServiceError,
        >(ServiceError::MissingToken),
        resolve_verdict(AuthHeaderView::Unreadable, secret, now, leeway) == Err::<
            ClaimsView,
            ServiceError,
        >(ServiceError::InvalidToken),
        decoded_claims(strip_bearer_spec(header), secret) is None ==> resolve_verdict(
            AuthHeaderView::Value(header),
            secret,
            now,
            leeway,
        ) == Err::<ClaimsView, ServiceError>(ServiceError::InvalidToken),
        decoded_claims(strip_bearer_spec(header), secret) matches Some(c) ==> (c.exp + leeway < now
            ==> resolve_verdict(AuthHeaderView::Value(header), secret, now, leeway) == Err::<
            ClaimsView,
            ServiceError,
        >(ServiceError::ExpiredToken)),
        decoded_claims(strip_bearer_spec(header), secret) matches Some(c) ==> (c.exp + leeway >= now
            ==> resolve_verdict(AuthHeaderView::Value(header), secret, now, leeway) == Ok::<
            ClaimsView,
            ServiceError,
        >(c)),
{
}

/// Parses a verified token's subject claim as a user id. A subject that is
/// not a well-formed id points to no user; like any other unexpected decode
/// failure it collapses into an internal error.
pub fn parse_subject(sub: &str) -> (r: Result<u128, ServiceError>)
    ensures
        uuid_of(sub@) matches Some(id) ==> r == Ok::<u128, ServiceError>(id),
        uuid_of(sub@) is None ==> r == Err::<u128, ServiceError>(
            ServiceError::InternalServerError,
        ),
{
    match parse_uuid(sub) {
        Some(id) => Ok(id),
        None => Err(ServiceError::InternalServerError),
    }
}

} // verus!
