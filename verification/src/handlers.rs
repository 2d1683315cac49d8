//! The decision core of each request handler.
//!
//! Every mutating or privacy-sensitive route reduces to a pure decision:
//! given the resolved principal, the records the store returned for the
//! path's ids and the request's payload, either the operation to perform, or
//! the typed error to surface. The store reads and writes around these
//! decisions happen outside; each function here is a pure function of its
//! arguments.

use vstd::prelude::*;

use crate::authz::{
    authorize_board_chain, authorize_card_chain, authorize_list_chain, board_verdict, card_verdict,
    list_verdict,
};
use crate::errors::ServiceError;
use crate::hashing::{hash_password, password_matches, password_within_limit, verify_password};
use crate::ids::{uuid_str_of, uuid_to_string};
use crate::models::{
    Board, BoardUpdate, Card, CardUpdate, List, ListUpdate, User, UserUpdate,
};
use crate::token::{decoded_claims, issue_token, signed_token_of, Claims, ClaimsView, JWTConfig};

verus! {

/// The claims of the token a successful login issues: the user's id in
/// string form as subject, issued now, expiring after the configured
/// lifetime.
pub open spec fn login_claims(user_id: u128, now: u64, expiry_secs: u64) -> ClaimsView {
    ClaimsView { sub: uuid_str_of(user_id), iat: now, exp: (now + expiry_secs) as u64 }
}

/// The login decision: given the credential the store returned for the
/// submitted mail address — the user's id and stored password hash, if such
/// a user exists — and the submitted password, either a freshly issued token
/// or `InvalidCredentials`. An unknown mail address and a wrong password are
/// deliberately indistinguishable.
pub fn login_check(
    found: Option<(u128, String)>,
    password: &str,
    config: &JWTConfig,
    now: u64,
) -> (r: Result<String, ServiceError>)
    requires
        now + config.expiry_secs <= u64::MAX,
    ensures
        found is None ==> r == Err::<String, ServiceError>(ServiceError::InvalidCredentials),
        found matches Some(cred) ==> (!password_matches(password@, cred.1@) ==> r == Err::<
            String,
            ServiceError,
        >(ServiceError::InvalidCredentials)),
        found matches Some(cred) ==> (password_matches(password@, cred.1@) ==> (r matches Ok(t)
            && t@ == signed_token_of(login_claims(cred.0, now, config.expiry_secs), config.key@)
            && decoded_claims(t@, config.key@) == Some(
            login_claims(cred.0, now, config.expiry_secs),
        ))),
{
    match found {
        None => Err(ServiceError::InvalidCredentials),
        Some((user_id, stored_hash)) => {
            if !verify_password(password, stored_hash.as_str()) {
                Err(ServiceError::InvalidCredentials)
            } else {
                let sub = uuid_to_string(user_id);
                let claims = Claims::new(sub, now, config.expiry_secs);
                proof {
                    assert(claims@ == login_claims(user_id, now, config.expiry_secs));
                }
                Ok(issue_token(&claims, config.key.as_str()))
            }
        },
    }
}

/// The registration decision: given the number of existing users holding the
/// submitted mail address, either a fresh user whose stored credential is
/// the hash of the submitted password, or `UserExists`. Registration with a
/// free mail address and a password within the hasher's length limit always
/// succeeds.
pub fn register_user(mail: String, password: &str, existing_with_mail: u64) -> (r: Result<
    User,
    ServiceError,
>)
    ensures
        existing_with_mail > 0 ==> r == Err::<User, ServiceError>(ServiceError::UserExists),
        existing_with_mail == 0 ==> (r matches Ok(u) ==> (u.mail == mail && password_matches(
            password@,
            u.password@,
        ))),
        (existing_with_mail == 0 && r is Err) ==> r == Err::<User, ServiceError>(
            ServiceError::InternalServerError,
        ),
        existing_with_mail == 0 && password_within_limit(password) ==> r is Ok,
{
    if existing_with_mail > 0 {
        Err(ServiceError::UserExists)
    } else {
        match hash_password(password) {
            Ok(hash) => Ok(User::new(mail, hash)),
            Err(e) => Err(e),
        }
    }
}

/// The decision of a user profile read: the user the store returned, or
/// `NotFound`.
pub fn find_user_decision(found: Option<User>) -> (r: Result<User, ServiceError>)
    ensures
        found matches Some(u) ==> r == Ok::<User, ServiceError>(u),
        found is None ==> r == Err::<User, ServiceError>(ServiceError::NotFound),
{
    match found {
        Some(u) => Ok(u),
        None => Err(ServiceError::NotFound),
    }
}

/// The decision of creating a list: the principal must own the addressed
/// board; the new list then references that board.
pub fn new_list_decision(principal: u128, board: Option<&Board>, name: String) -> (r: Result<
    List,
    ServiceError,
>)
    ensures
        board_verdict(principal, board) matches Err(e) ==> r == Err::<List, ServiceError>(e),
        board_verdict(principal, board) is Ok ==> (board matches Some(b) ==> (r matches Ok(l)
            && l.board == b.id && l.name == name)),
{
    match authorize_board_chain(principal, board) {
        Err(e) => Err(e),
        Ok(_) => match board {
            Some(b) => Ok(List::new(b, name)),
            None => unreached(),
        },
    }
}

/// The decision of creating a card: the principal must own the board of the
/// addressed board/list chain; the new card then references that list.
pub fn new_card_decision(
    principal: u128,
    board: Option<&Board>,
    list: Option<&List>,
    content: Option<String>,
    labels: Option<Vec<String>>,
) -> (r: Result<Card, ServiceError>)
    ensures
        list_verdict(principal, board, list) matches Err(e) ==> r == Err::<Card, ServiceError>(e),
        list_verdict(principal, board, list) is Ok ==> (list matches Some(l) ==> (r matches Ok(c)
            && c.list == l.id && c.content == content && c.labels == labels)),
{
    match authorize_list_chain(principal, board, list) {
        Err(e) => Err(e),
        Ok(_) => match list {
            Some(l) => Ok(Card::new(l, content, labels)),
            None => unreached(),
        },
    }
}

/// The decision of patching a board: an empty update is rejected first, the
/// ownership chain is authorized next, and the accepted update is addressed
/// to the board the path resolved to.
pub fn patch_board_decision(principal: u128, board: Option<&Board>, data: BoardUpdate) -> (r:
    Result<BoardUpdate, ServiceError>)
    ensures
        data.spec_is_empty() ==> r == Err::<BoardUpdate, ServiceError>(ServiceError::EmptyUpdate),
        !data.spec_is_empty() ==> (board_verdict(principal, board) matches Err(e) ==> r == Err::<
            BoardUpdate,
            ServiceError,
        >(e)),
        !data.spec_is_empty() && board_verdict(principal, board) is Ok ==> (board matches Some(b)
            ==> (r matches Ok(d) && d.id == b.id && d.name == data.name && d.description
            == data.description)),
{
    if data.is_empty() {
        Err(ServiceError::EmptyUpdate)
    } else {
        match authorize_board_chain(principal, board) {
            Err(e) => Err(e),
            Ok(_) => match board {
                Some(b) => Ok(BoardUpdate {
                    id: b.id,
                    name: data.name,
                    description: data.description,
                }),
                None => unreached(),
            },
        }
    }
}

/// The decision of patching a list: an empty update is rejected first, the
/// ownership chain is authorized next, and the accepted update is addressed
/// to the list the path resolved to.
pub fn patch_list_decision(
    principal: u128,
    board: Option<&Board>,
    list: Option<&List>,
    data: ListUpdate,
) -> (r: Result<ListUpdate, ServiceError>)
    ensures
        data.spec_is_empty() ==> r == Err::<ListUpdate, ServiceError>(ServiceError::EmptyUpdate),
        !data.spec_is_empty() ==> (list_verdict(principal, board, list) matches Err(e) ==> r
            == Err::<ListUpdate, ServiceError>(e)),
        !data.spec_is_empty() && list_verdict(principal, board, list) is Ok ==> (
        list matches Some(l) ==> (r matches Ok(d) && d.id == l.id && d.name == data.name)),
{
    if data.is_empty() {
        Err(ServiceError::EmptyUpdate)
    } else {
        match authorize_list_chain(principal, board, list) {
            Err(e) => Err(e),
            Ok(_) => match list {
                Some(l) => Ok(ListUpdate { id: l.id, name: data.name }),
                None => unreached(),
            },
        }
    }
}

/// The decision of patching a card: an empty update is rejected first, the
/// ownership chain is authorized next, and the accepted update is addressed
/// to the card the path resolved to.
pub fn patch_card_decision(
    principal: u128,
    board: Option<&Board>,
    list: Option<&List>,
    card: Option<&Card>,
    data: CardUpdate,
) -> (r: Result<CardUpdate, ServiceError>)
    ensures
        data.spec_is_empty() ==> r == Err::<CardUpdate, ServiceError>(ServiceError::EmptyUpdate),
        !data.spec_is_empty() ==> (card_verdict(principal, board, list, card) matches Err(e)
            ==> r == Err::<CardUpdate, ServiceError>(e)),
        !data.spec_is_empty() && card_verdict(principal, board, list, card) is Ok ==> (
        card matches Some(c) ==> (r matches Ok(d) && d.id == c.id && d.content == data.content
            && d.labels == data.labels)),
{
    if data.is_empty() {
        Err(ServiceError::EmptyUpdate)
    } else {
        match authorize_card_chain(principal, board, list, card) {
            Err(e) => Err(e),
            Ok(_) => match card {
                Some(c) => Ok(CardUpdate { id: c.id, content: data.content, labels: data.labels }),
                None => unreached(),
            },
        }
    }
}

/// The decision of a user patching their own profile: an empty update is
/// rejected; an accepted one is addressed to the requesting principal
/// itself, so no ownership chain is involved.
pub fn patch_me_decision(user: &User, data: UserUpdate) -> (r: Result<UserUpdate, ServiceError>)
    ensures
        data.spec_is_empty() ==> r == Err::<UserUpdate, ServiceError>(ServiceError::EmptyUpdate),
        !data.spec_is_empty() ==> (r matches Ok(d) && d.id == user.id && d.mail == data.mail),
{
    if data.is_empty() {
        Err(ServiceError::EmptyUpdate)
    } else {
        Ok(UserUpdate { id: user.id, mail: data.mail })
    }
}

} // verus!
