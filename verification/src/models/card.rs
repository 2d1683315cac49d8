use vstd::prelude::*;

use crate::ids::fresh_id;
use crate::models::list::List;

verus! {

/// A card: always references exactly one list and inherits the owner of the
/// board the list belongs to.
#[derive(Debug, Clone)]
pub struct Card {
    pub id: u128,
    pub list: u128,
    pub content: Option<String>,
    pub labels: Option<Vec<String>>,
}

/// A partial update of a card; an absent field is left unchanged.
#[derive(Debug, Clone)]
pub struct CardUpdate {
    pub id: u128,
    pub content: Option<String>,
    pub labels: Option<Vec<String>>,
}

impl Card {
    /// Creates a card under the given list, under a freshly drawn id.
    pub fn new(list: &List, content: Option<String>, labels: Option<Vec<String>>) -> (c: Card)
        ensures
            c.list == list.id,
            c.content == content,
            c.labels == labels,
    {
        Card { id: fresh_id(), list: list.id, content, labels }
    }
}

impl CardUpdate {
    /// Whether the update changes nothing.
    pub open spec fn spec_is_empty(&self) -> bool {
        self.content is None && self.labels is None
    }

    /// Returns true if all update fields are None
    pub fn is_empty(&self) -> (r: bool)
        ensures
            r == self.spec_is_empty(),
    {
        self.content.is_none() && self.labels.is_none()
    }
}

} // verus!
