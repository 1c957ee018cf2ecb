//! A user as shown to others: without the password.
use vstd::prelude::*;

verus! {

/// A user's public details.
#[derive(Debug)]
pub struct UserNoPassword {
    pub id: i32,
    pub name: String,
    pub email: String,
}

impl Clone for UserNoPassword {
    fn clone(&self) -> (r: Self)
        ensures
            r == *self,
    {
        UserNoPassword { id: self.id, name: self.name.clone(), email: self.email.clone() }
    }
}

impl UserNoPassword {
    /// The details made of exactly these parts.
    pub fn new(id: i32, name: String, email: String) -> (user: Self)
        ensures
            user == (UserNoPassword { id, name, email }),
    {
        Self { id, name, email }
    }
}

} // verus!
