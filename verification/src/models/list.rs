use vstd::prelude::*;

use crate::ids::fresh_id;
use crate::models::board::Board;

verus! {

/// A list: always references exactly one board and inherits its owner.
#[derive(Debug, Clone)]
pub struct List {
    pub id: u128,
    pub board: u128,
    pub name: String,
}

/// A partial update of a list; an absent field is left unchanged.
#[derive(Debug, Clone)]
pub struct ListUpdate {
    pub id: u128,
    pub name: Option<String>,
}

impl List {
    /// Creates a list under the given board, under a freshly drawn id.
    pub fn new(board: &Board, name: String) -> (l: List)
        ensures
            l.board == board.id,
            l.name == name,
    {
        List { id: fresh_id(), board: board.id, name }
    }
}

impl ListUpdate {
    /// Whether the update changes nothing.
    pub open spec fn spec_is_empty(&self) -> bool {
        self.name is None
    }

    /// Returns true if all update fields are None
    pub fn is_empty(&self) -> (r: bool)
        ensures
            r == self.spec_is_empty(),
    {
        self.name.is_none()
    }
}

} // verus!
