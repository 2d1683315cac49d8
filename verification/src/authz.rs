//! The ownership authorization chain.
//!
//! Given a resolved principal and the resources the store returned for the
//! ids a request's path names, the chain check verifies, in order: that
//! every resource of the chain exists, that each child's parent reference
//! equals the id of the preceding resource, and only then that the root
//! board's owner equals the principal. An absent resource and a cross-linked
//! one are both `NotFound` — a client must not learn, from the error kind,
//! whether a resource it does not own exists under a different parent. A
//! chain that resolves in full but is not owned by the principal is
//! `Forbidden`: the owner/non-owner distinction is disclosed only once the
//! whole chain is confirmed.
//!
//! Each function takes the records the store returned for the path's ids,
//! as plain values; the store lookups themselves happen outside.

use vstd::prelude::*;

use crate::errors::ServiceError;
use crate::models::{Board, Card, List};

verus! {

/// Existence of a one-link chain: the addressed board.
pub open spec fn board_found(board: Option<&Board>) -> Result<(), ServiceError> {
    match board {
        Some(_) => Ok(()),
        None => Err(ServiceError::NotFound),
    }
}

/// Existence and linkage of a two-link chain: the addressed board and a
/// list whose parent reference is that board.
pub open spec fn list_chain_found(board: Option<&Board>, list: Option<&List>) -> Result<
    (),
    ServiceError,
> {
    match (board, list) {
        (Some(b), Some(l)) => if l.board == b.id {
            Ok(())
        } else {
            Err(ServiceError::NotFound)
        },
        _ => Err(ServiceError::NotFound),
    }
}

/// Existence and linkage of a three-link chain: the addressed board, a list
/// under it, and a card whose parent reference is that list.
pub open spec fn card_chain_found(
    board: Option<&Board>,
    list: Option<&List>,
    card: Option<&Card>,
) -> Result<(), ServiceError> {
    match (board, list, card) {
        (Some(b), Some(l), Some(c)) => if l.board == b.id && c.list == l.id {
            Ok(())
        } else {
            Err(ServiceError::NotFound)
        },
        _ => Err(ServiceError::NotFound),
    }
}

/// The authorization verdict on a one-link chain: the board must exist and
/// be owned by the principal.
pub open spec fn board_verdict(principal: u128, board: Option<&Board>) -> Result<
    (),
    ServiceError,
> {
    match board {
        Some(b) => if b.owner == principal {
            Ok(())
        } else {
            Err(ServiceError::Forbidden)
        },
        None => Err(ServiceError::NotFound),
    }
}

/// The authorization verdict on a two-link chain: board and list must exist
/// and be linked, and the board must be owned by the principal.
pub open spec fn list_verdict(principal: u128, board: Option<&Board>, list: Option<&List>) -> Result<
    (),
    ServiceError,
> {
    match (board, list) {
        (Some(b), Some(l)) => if l.board != b.id {
            Err(ServiceError::NotFound)
        } else if b.owner != principal {
            Err(ServiceError::Forbidden)
        } else {
            Ok(())
        },
        _ => Err(ServiceError::NotFound),
    }
}

/// The authorization verdict on a three-link chain: board, list and card
/// must exist and be linked, and the board must be owned by the principal.
pub open spec fn card_verdict(
    principal: u128,
    board: Option<&Board>,
    list: Option<&List>,
    card: Option<&Card>,
) -> Result<(), ServiceError> {
    match (board, list, card) {
        (Some(b), Some(l), Some(c)) => if l.board != b.id || c.list != l.id {
            Err(ServiceError::NotFound)
        } else if b.owner != principal {
            Err(ServiceError::Forbidden)
        } else {
            Ok(())
        },
        _ => Err(ServiceError::NotFound),
    }
}

/// Checks existence of the addressed board, for operations open to any
/// caller that may see the board.
pub fn resolve_board_chain(board: Option<&Board>) -> (r: Result<(), ServiceError>)
    ensures
        r == board_found(board),
{
    match board {
        Some(_) => Ok(()),
        None => Err(ServiceError::NotFound),
    }
}

/// Checks existence and linkage of the addressed board/list chain.
pub fn resolve_list_chain(board: Option<&Board>, list: Option<&List>) -> (r: Result<
    (),
    ServiceError,
>)
    ensures
        r == list_chain_found(board, list),
{
    match (board, list) {
        (Some(b), Some(l)) => if l.board == b.id {
            Ok(())
        } else {
            Err(ServiceError::NotFound)
        },
        _ => Err(ServiceError::NotFound),
    }
}

/// Checks existence and linkage of the addressed board/list/card chain.
pub fn resolve_card_chain(
    board: Option<&Board>,
    list: Option<&List>,
    card: Option<&Card>,
) -> (r: Result<(), ServiceError>)
    ensures
        r == card_chain_found(board, list, card),
{
    match (board, list, card) {
        (Some(b), Some(l), Some(c)) => if l.board == b.id && c.list == l.id {
            Ok(())
        } else {
            Err(ServiceError::NotFound)
        },
        _ => Err(ServiceError::NotFound),
    }
}

/// Authorizes the principal against the addressed board: existence first,
/// ownership only after.
pub fn authorize_board_chain(principal: u128, board: Option<&Board>) -> (r: Result<
    (),
    ServiceError,
>)
    ensures
        r == board_verdict(principal, board),
{
    match board {
        Some(b) => if b.owner == principal {
            Ok(())
        } else {
            Err(ServiceError::Forbidden)
        },
        None => Err(ServiceError::NotFound),
    }
}

/// Authorizes the principal against the addressed board/list chain:
/// existence and linkage first, ownership only after.
pub fn authorize_list_chain(principal: u128, board: Option<&Board>, list: Option<&List>) -> (r:
    Result<(), ServiceError>)
    ensures
        r == list_verdict(principal, board, list),
{
    match (board, list) {
        (Some(b), Some(l)) => if l.board != b.id {
            Err(ServiceError::NotFound)
        } else if b.owner != principal {
            Err(ServiceError::Forbidden)
        } else {
            Ok(())
        },
        _ => Err(ServiceError::NotFound),
    }
}

/// Authorizes the principal against the addressed board/list/card chain:
/// existence and linkage first, ownership only after.
pub fn authorize_card_chain(
    principal: u128,
    board: Option<&Board>,
    list: Option<&List>,
    card: Option<&Card>,
) -> (r: Result<(), ServiceError>)
    ensures
        r == card_verdict(principal, board, list, card),
{
    match (board, list, card) {
        (Some(b), Some(l), Some(c)) => if l.board != b.id || c.list != l.id {
            Err(ServiceError::NotFound)
        } else if b.owner != principal {
            Err(ServiceError::Forbidden)
        } else {
            Ok(())
        },
        _ => Err(ServiceError::NotFound),
    }
}

/// Law: the owner of the board at the root of a fully linked chain passes
/// the chain check, at every depth.
pub proof fn lemma_owner_passes_chain(principal: u128, b: &Board, l: &List, c: &Card)
    requires
        b.owner == principal,
        l.board == b.id,
        c.list == l.id,
    ensures
        board_verdict(principal, Some(b)) == Ok::<(), ServiceError>(()),
        list_verdict(principal, Some(b), Some(l)) == Ok::<(), ServiceError>(()),
        card_verdict(principal, Some(b), Some(l), Some(c)) == Ok::<(), ServiceError>(()),
{
}

/// Law: a principal that does not own the root board of a fully linked
/// chain is rejected as `Forbidden`, at every depth — and only once the
/// whole chain has been confirmed to resolve.
pub proof fn lemma_non_owner_forbidden(principal: u128, b: &Board, l: &List, c: &Card)
    requires
        b.owner != principal,
        l.board == b.id,
        c.list == l.id,
    ensures
        board_verdict(principal, Some(b)) == Err::<(), ServiceError>(ServiceError::Forbidden),
        list_verdict(principal, Some(b), Some(l)) == Err::<(), ServiceError>(
            ServiceError::Forbidden,
        ),
        card_verdict(principal, Some(b), Some(l), Some(c)) == Err::<(), ServiceError>(
            ServiceError::Forbidden,
        ),
{
}

/// Law: a card addressed under a list it does not belong to is `NotFound`,
/// for every principal — a cross-linked id is indistinguishable from a
/// missing resource.
pub proof fn lemma_cross_linked_not_found(b: &Board, l: &List, c: &Card)
    requires
        l.board == b.id,
        c.list != l.id,
    ensures
        forall|principal: u128|
            card_verdict(principal, Some(b), Some(l), Some(c)) == Err::<(), ServiceError>(
                ServiceError::NotFound,
            ),
{
}

/// Law: a chain whose existence or linkage check fails yields that same
/// failure for every principal — authentication state never changes a
/// broken chain's verdict, so ownership is never disclosed through it.
pub proof fn lemma_broken_chain_masks_ownership(
    board: Option<&Board>,
    list: Option<&List>,
    card: Option<&Card>,
)
    ensures
        board_found(board) matches Err(e) ==> forall|principal: u128|
            board_verdict(principal, board) == Err::<(), ServiceError>(e),
        list_chain_found(board, list) matches Err(e) ==> forall|principal: u128|
            list_verdict(principal, board, list) == Err::<(), ServiceError>(e),
        card_chain_found(board, list, card) matches Err(e) ==> forall|principal: u128|
            card_verdict(principal, board, list, card) == Err::<(), ServiceError>(e),
{
}

/// Law: a chain with a missing root board is `NotFound` at every depth and
/// for every principal, regardless of what else was found.
pub proof fn lemma_missing_root_not_found(list: Option<&List>, card: Option<&Card>)
    ensures
        forall|principal: u128|
            board_verdict(principal, None) == Err::<(), ServiceError>(ServiceError::NotFound),
        forall|principal: u128|
            list_verdict(principal, None, list) == Err::<(), ServiceError>(ServiceError::NotFound),
        forall|principal: u128|
            card_verdict(principal, None, list, card) == Err::<(), ServiceError>(
                ServiceError::NotFound,
            ),
{
}

} // verus!
