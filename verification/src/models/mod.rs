//! The resource model.
//!
//! Boards, lists and cards form a parent-linked hierarchy: a list references
//! exactly one board, a card references exactly one list, and ownership is
//! defined only at the board level — a list or card has no owner field of
//! its own and inherits the board's owner transitively. Users own boards and
//! carry the credential the login flow checks against.

mod board;
mod card;
mod list;
mod user;

pub use board::{Board, BoardUpdate};
pub use card::{Card, CardUpdate};
pub use list::{List, ListUpdate};
pub use user::{User, UserUpdate};
