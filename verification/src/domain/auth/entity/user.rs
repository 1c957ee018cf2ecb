//! Registered users.
use crate::time::{is_clock_reading, utc_now, Timestamp};
use vstd::prelude::*;

verus! {

/// The identifier of a user.
pub type UserId = i32;

/// A registered user, with the hash of their password.
#[derive(Debug)]
pub struct User {
    pub id: i32,
    pub name: String,
    pub email: String,
    pub password: String,
    pub created_at: Timestamp,
    pub updated_at: Timestamp,
}

impl Clone for User {
    fn clone(&self) -> (r: Self)
        ensures
            r == *self,
    {
        User {
            id: self.id,
            name: self.name.clone(),
            email: self.email.clone(),
            password: self.password.clone(),
            created_at: self.created_at,
            updated_at: self.updated_at,
        }
    }
}

impl User {
    /// A user not yet stored: id 0 (the store assigns the real one), created
    /// and updated now. The two times are read from the clock one after the
    /// other, so they may differ.
    pub fn new(name: String, email: String, password: String) -> (user: Self)
        ensures
            user.id == 0,
            user.name == name,
            user.email == email,
            user.password == password,
            is_clock_reading(user.created_at),
            is_clock_reading(user.updated_at),
    {
        User {
            id: 0,
            name,
            email,
            password,
            created_at: utc_now(),
            updated_at: utc_now(),
        }
    }
}

} // verus!
