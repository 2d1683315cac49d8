use vstd::prelude::*;

use crate::ids::fresh_id;
use crate::models::user::User;

verus! {

/// A board: the root of the resource hierarchy. Ownership of the whole
/// chain below it is anchored in its `owner` field.
#[derive(Debug, Clone)]
pub struct Board {
    pub id: u128,
    pub owner: u128,
    pub name: String,
    pub description: Option<String>,
}

/// A partial update of a board; an absent field is left unchanged.
#[derive(Debug, Clone)]
pub struct BoardUpdate {
    pub id: u128,
    pub name: Option<String>,
    pub description: Option<String>,
}

impl Board {
    /// Creates a board owned by the given user, under a freshly drawn id.
    pub fn new(owner: &User, name: String, description: Option<String>) -> (b: Board)
        ensures
            b.owner == owner.id,
            b.name == name,
            b.description == description,
    {
        Board { id: fresh_id(), owner: owner.id, name, description }
    }
}

impl BoardUpdate {
    /// Whether the update changes nothing.
    pub open spec fn spec_is_empty(&self) -> bool {
        self.name is None && self.description is None
    }

    /// Returns true if all update fields are None
    pub fn is_empty(&self) -> (r: bool)
        ensures
            r == self.spec_is_empty(),
    {
        self.name.is_none() && self.description.is_none()
    }
}

} // verus!
