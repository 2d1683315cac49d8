use vstd::prelude::*;

use crate::errors::ServiceError;
use crate::ids::fresh_id;

verus! {

/// A registered user: the root of every ownership chain. The password field
/// holds the PHC hash of the credential, never the plain password.
#[derive(Debug, Clone)]
pub struct User {
    pub id: u128,
    pub mail: String,
    pub password: String,
}

/// A partial update of a user; an absent field is left unchanged.
#[derive(Debug, Clone)]
pub struct UserUpdate {
    pub id: u128,
    pub mail: Option<String>,
}

impl User {
    /// Creates a user under a freshly drawn id.
    pub fn new(mail: String, password: String) -> (u: User)
        ensures
            u.mail == mail,
            u.password == password,
    {
        User { id: fresh_id(), mail, password }
    }

    /// Final step of identity resolution: turns the store's answer for a
    /// token's subject into a live principal. A token that decodes validly
    /// but points to a vanished user must never resolve to a partially
    /// populated or default user, so an absent user is an internal error.
    pub fn resolve(found: Option<User>) -> (r: Result<User, ServiceError>)
        ensures
            found matches Some(u) ==> r == Ok::<User, ServiceError>(u),
            found is None ==> r == Err::<User, ServiceError>(ServiceError::InternalServerError),
    {
        match found {
            Some(u) => Ok(u),
            None => Err(ServiceError::InternalServerError),
        }
    }
}

impl UserUpdate {
    /// Whether the update changes nothing.
    pub open spec fn spec_is_empty(&self) -> bool {
        self.mail is None
    }

    /// Returns true if all update fields are None
    pub fn is_empty(&self) -> (r: bool)
        ensures
            r == self.spec_is_empty(),
    {
        self.mail.is_none()
    }
}

} // verus!
