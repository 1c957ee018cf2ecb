//! The guard in front of the routes for signed-in users: it reads the session
//! cookie, checks the token in it, and looks the user up.
use crate::domain::auth::entity::user::User;
use crate::transport::http::status::Status;
use vstd::prelude::*;

verus! {

/// The signed-in user, as handed to the route behind the guard.
#[derive(Debug)]
pub struct MiddlewareUserResponse {
    pub user_id: i32,
    pub email: String,
}

/// The answer of the guard when it turns a request away.
#[derive(Debug)]
pub struct Rejection {
    pub status: Status,
    pub message: String,
}

/// A decoded session token: the user it names, and whether it is still valid.
#[derive(Debug)]
pub struct TokenCheck {
    pub subject: i32,
    pub unexpired: bool,
}

/// `r` turns the request away with `status` and `message`.
pub open spec fn rejects(r: Rejection, status: Status, message: Seq<char>) -> bool {
    r.status == status && r.message@ == message
}

/// First step of the guard: the token in the `token` cookie, if the request
/// has one; else the request is refused as unauthorized.
pub fn user_middleware(token_cookie: Option<String>) -> (next: Result<String, Rejection>)
    ensures
        match token_cookie {
            Some(token) => next == Ok::<String, Rejection>(token),
            None => next matches Err(r) && rejects(r, Status::Unauthorized, "Unauthorized"@),
        },
{
    match token_cookie {
        Some(token) => Ok(token),
        None => Err(Rejection { status: Status::Unauthorized, message: String::from_str("Unauthorized") }),
    }
}

/// Given the decoded token (`None` when it could not be decoded): the user
/// to look up, or why the request is refused.
pub fn user_middleware_after_decode(decoded: Option<TokenCheck>) -> (next: Result<i32, Rejection>)
    ensures
        match decoded {
            None => next matches Err(r) && rejects(r, Status::Unauthorized, "Invalid token"@),
            Some(check) => if check.unexpired {
                next == Ok::<i32, Rejection>(check.subject)
            } else {
                next matches Err(r) && rejects(r, Status::Unauthorized, "Token expired"@)
            },
        },
{
    match decoded {
        None => Err(Rejection { status: Status::Unauthorized, message: String::from_str("Invalid token") }),
        Some(check) => {
            if check.unexpired {
                Ok(check.subject)
            } else {
                Err(Rejection { status: Status::Unauthorized, message: String::from_str("Token expired") })
            }
        },
    }
}

/// Given the lookup of the token's user: the user handed to the route, or
/// the refusal when the user cannot be had.
pub fn user_middleware_after_lookup<E>(found: Result<User, E>) -> (next: Result<MiddlewareUserResponse, Rejection>)
    ensures
        match found {
            Ok(user) => next == Ok::<MiddlewareUserResponse, Rejection>(
                MiddlewareUserResponse { user_id: user.id, email: user.email },
            ),
            Err(_) => next matches Err(r) && rejects(r, Status::NotFound, "User not found"@),
        },
{
    match found {
        Ok(user) => Ok(MiddlewareUserResponse { user_id: user.id, email: user.email }),
        Err(_) => Err(Rejection { status: Status::NotFound, message: String::from_str("User not found") }),
    }
}

} // verus!
