//! Core of a multi-tenant board/list/card service: token-based identity
//! resolution and hierarchical ownership authorization.
//!
//! Every resource is transitively owned by a user: boards carry an owner,
//! lists belong to a board, cards belong to a list. A request is first
//! resolved to a verified, time-bounded principal from a signed bearer
//! token, and every sensitive operation is then authorized by walking the
//! ownership chain from the addressed resource up to the owning user.

pub mod authz;
pub mod errors;
pub mod handlers;
pub mod hashing;
pub mod identity;
mod ids;
pub mod models;
pub mod token;

pub use errors::ServiceError;
pub use models::{Board, BoardUpdate, Card, CardUpdate, List, ListUpdate, User, UserUpdate};
pub use token::{Claims, JWTConfig, TokenError};

