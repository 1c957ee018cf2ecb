//! The answers of the login and registration routes.
use crate::domain::auth::entity::user::User;
use crate::domain::auth::service::{auth_error_text, AuthError};
use crate::tools::password_hash::{hash_password, hex_lower, password_hash_text, sha256_of};
use vstd::utf8::encode_utf8;
use crate::transport::http::status::Status;
use vstd::prelude::*;

verus! {

/// The body of a failed answer.
#[derive(Debug)]
pub struct ErrorResponse {
    pub message: String,
}

/// The body of a login request.
#[derive(Debug)]
pub struct LoginRequest {
    pub email: String,
    pub password: String,
}

/// The body of a successful login.
#[derive(Debug)]
pub struct LoginResponse {
    pub user_id: i32,
    pub jwt: String,
}

/// The body of a registration request.
#[derive(Debug)]
pub struct RegisterRequest {
    pub name: String,
    pub email: String,
    pub password: String,
}

/// The body of a successful registration.
#[derive(Debug)]
pub struct RegisterResponse {
    pub user_id: i32,
}

/// The `SameSite` attribute of a cookie; `Unrestricted` is `SameSite=None`.
#[derive(Clone, Copy, Debug, PartialEq, Eq, Structural)]
pub enum SameSite {
    Strict,
    Lax,
    Unrestricted,
}

/// A cookie that a successful login sets.
#[derive(Debug)]
pub struct SessionCookie {
    pub name: String,
    pub value: String,
    pub path: String,
    pub http_only: bool,
    pub same_site: SameSite,
}

/// `c` is the session cookie that carries `jwt`: named `token`, for every
/// path, hidden from scripts, sent cross-site.
pub open spec fn is_session_cookie(c: SessionCookie, jwt: Seq<char>) -> bool {
    &&& c.name@ == "token"@
    &&& c.value@ == jwt
    &&& c.path@ == "/"@
    &&& c.http_only
    &&& c.same_site == SameSite::Unrestricted
}

/// `r` is a failed answer with `status` and a body whose message is `message`.
pub open spec fn fails_with(r: (Status, ErrorResponse), status: Status, message: Seq<char>) -> bool {
    r.0 == status && r.1.message@ == message
}

/// A login as the user store is asked about it: the address, and the
/// stored form of the password instead of the password.
#[derive(Debug)]
pub struct HashedLogin {
    pub email: String,
    pub password_hash: String,
}

/// A registration as the user store is asked to make it: the password
/// replaced by its stored form.
#[derive(Debug)]
pub struct HashedRegistration {
    pub name: String,
    pub email: String,
    pub password_hash: String,
}

/// First step of the login route: the address and the hash of the
/// submitted password, which is all the store is asked with.
pub fn login_post_handler(request: LoginRequest) -> (login: HashedLogin)
    ensures
        login.email == request.email,
        login.password_hash@ == password_hash_text(request.password@),
        login.password_hash@ == hex_lower(sha256_of(encode_utf8(request.password@))),
{
    let password_hash = hash_password(request.password.as_str());
    HashedLogin { email: request.email, password_hash }
}

/// First step of the registration route: name, address, and the hash of
/// the submitted password, which is all the store is asked with.
pub fn register_post_handler(request: RegisterRequest) -> (registration: HashedRegistration)
    ensures
        registration.name == request.name,
        registration.email == request.email,
        registration.password_hash@ == password_hash_text(request.password@),
        registration.password_hash@ == hex_lower(sha256_of(encode_utf8(request.password@))),
{
    let password_hash = hash_password(request.password.as_str());
    HashedRegistration { name: request.name, email: request.email, password_hash }
}

/// The status of a failed login: unauthorized for refused credentials, a
/// server error for any other failure.
pub open spec fn login_failure_status(e: AuthError) -> Status {
    match e {
        AuthError::IncorrectEmailOrPassword => Status::Unauthorized,
        _ => Status::InternalServerError,
    }
}

/// Given the outcome of logging in: the user for whom to sign a token, or
/// the failed answer carrying the error's message.
pub fn login_post_handler_after_login(login: Result<User, AuthError>) -> (next: Result<i32, (Status, ErrorResponse)>)
    ensures
        match login {
            Ok(user) => next == Ok::<i32, (Status, ErrorResponse)>(user.id),
            Err(e) => next matches Err(r) && fails_with(r, login_failure_status(e), auth_error_text(e)),
        },
{
    match login {
        Ok(user) => Ok(user.id),
        Err(AuthError::IncorrectEmailOrPassword) => Err(
            (Status::Unauthorized, ErrorResponse { message: AuthError::IncorrectEmailOrPassword.to_string() }),
        ),
        Err(e) => Err((Status::InternalServerError, ErrorResponse { message: e.to_string() })),
    }
}

/// Given the signed token of user `user_id` (or the signer's error text):
/// the session cookie and body of the successful login, or the server-error
/// answer.
pub fn login_post_handler_after_token(user_id: i32, token: Result<String, String>) -> (reply: Result<(SessionCookie, LoginResponse), (Status, ErrorResponse)>)
    ensures
        match token {
            Ok(jwt) => reply matches Ok((cookie, body)) && is_session_cookie(cookie, jwt@)
                && body == (LoginResponse { user_id, jwt }),
            Err(m) => reply matches Err(r) && fails_with(r, Status::InternalServerError, "Failed to generate JWT: "@ + m@),
        },
{
    match token {
        Ok(jwt) => {
            proof {
                reveal_strlit("token");
                reveal_strlit("/");
            }
            let cookie = SessionCookie {
                name: String::from_str("token"),
                value: jwt.clone(),
                path: String::from_str("/"),
                http_only: true,
                same_site: SameSite::Unrestricted,
            };
            Ok((cookie, LoginResponse { user_id, jwt }))
        },
        Err(m) => Err(
            (
                Status::InternalServerError,
                ErrorResponse { message: String::from_str("Failed to generate JWT: ").concat(m.as_str()) },
            ),
        ),
    }
}

/// Given the outcome of registering: the body with the new user's id; a
/// bad request when the address is taken; else a server error carrying the
/// error's message.
pub fn register_post_handler_reply(result: Result<i32, AuthError>) -> (reply: Result<RegisterResponse, (Status, ErrorResponse)>)
    ensures
        match result {
            Ok(user_id) => reply == Ok::<RegisterResponse, (Status, ErrorResponse)>(RegisterResponse { user_id }),
            Err(AuthError::UserAlreadyExists) => reply matches Err(r) && fails_with(
                r,
                Status::BadRequest,
                "user with this email already exits"@,
            ),
            Err(e) => reply matches Err(r) && fails_with(r, Status::InternalServerError, auth_error_text(e)),
        },
{
    match result {
        Ok(user_id) => Ok(RegisterResponse { user_id }),
        Err(AuthError::UserAlreadyExists) => Err(
            (Status::BadRequest, ErrorResponse { message: String::from_str("user with this email already exits") }),
        ),
        Err(e) => Err((Status::InternalServerError, ErrorResponse { message: e.to_string() })),
    }
}

/// Refused credentials are answered as unauthorized; every other login
/// failure (a store or transaction failure) as a server error.
pub proof fn lemma_login_failure_status(e: AuthError)
    ensures
        login_failure_status(AuthError::IncorrectEmailOrPassword) == Status::Unauthorized,
        !(e is IncorrectEmailOrPassword) ==> login_failure_status(e) == Status::InternalServerError,
{
}

} // verus!
