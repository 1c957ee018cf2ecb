//! The answers of the user routes.
use crate::domain::auth::entity::user::User;
use crate::domain::user_manager::service::UserManagerError;
use crate::transport::http::status::Status;
use vstd::prelude::*;

verus! {

/// The body of a rename request.
#[derive(Debug)]
pub struct ChangeNameRequest {
    pub name: String,
}

/// Given the outcome of reading a user: the user; not found when there is
/// no such user; else a server error.
pub fn get_user_info_get_handler_reply(result: Result<User, UserManagerError>) -> (reply: Result<User, Status>)
    ensures
        match result {
            Ok(user) => reply == Ok::<User, Status>(user),
            Err(UserManagerError::UserNotFound(_)) => reply == Err::<User, Status>(Status::NotFound),
            Err(_) => reply == Err::<User, Status>(Status::InternalServerError),
        },
{
    match result {
        Ok(user) => Ok(user),
        Err(UserManagerError::UserNotFound(_)) => Err(Status::NotFound),
        Err(_) => Err(Status::InternalServerError),
    }
}

/// Given the outcome of renaming: success, or a server error for any failure.
pub fn change_name_post_handler_reply(result: Result<(), UserManagerError>) -> (reply: Result<(), Status>)
    ensures
        match result {
            Ok(_) => reply is Ok,
            Err(_) => reply == Err::<(), Status>(Status::InternalServerError),
        },
{
    match result {
        Ok(_) => Ok(()),
        Err(_) => Err(Status::InternalServerError),
    }
}

} // verus!
