//! Registration and login.
use crate::domain::auth::entity::user::User;
use crate::time::is_clock_reading;
use crate::text::{append_signed_decimal, signed_decimal};
use vstd::prelude::*;

verus! {

/// A failure of the user store. Each variant carries the text of the failure
/// it wraps, as that failure renders itself.
#[derive(Debug)]
pub enum PersistenceError {
    /// The transaction factory failed (its `Display` text).
    TrxFactoryError(String),
    /// A query failed (the `Debug` text of its error report).
    InternalError(String),
}

/// The message of a store failure, as its `Display` writes it.
pub open spec fn persistence_error_text(e: PersistenceError) -> Seq<char> {
    match e {
        PersistenceError::TrxFactoryError(m) => "trx factory error: "@ + m@,
        PersistenceError::InternalError(m) => "internal error: "@ + m@,
    }
}

impl PersistenceError {
    /// The message of the failure.
    pub fn to_string(&self) -> (s: String)
        ensures
            s@ == persistence_error_text(*self),
    {
        match self {
            PersistenceError::TrxFactoryError(m) => String::from_str("trx factory error: ").concat(m.as_str()),
            PersistenceError::InternalError(m) => String::from_str("internal error: ").concat(m.as_str()),
        }
    }
}

/// Why registration or login failed.
#[derive(Debug)]
pub enum AuthError {
    /// The transaction factory failed (its `Display` text).
    TrxFactoryError(String),
    PersistenceError(PersistenceError),
    IncorrectEmailOrPassword,
    UserAlreadyExists,
    UserNotFound(i32),
}

/// The message of an authentication error, as its `Display` writes it.
pub open spec fn auth_error_text(e: AuthError) -> Seq<char> {
    match e {
        AuthError::TrxFactoryError(m) => "trx factory error: "@ + m@,
        AuthError::PersistenceError(p) => "persistence error: "@ + persistence_error_text(p),
        AuthError::IncorrectEmailOrPassword => "incorrect email or password"@,
        AuthError::UserAlreadyExists => "user already exists"@,
        AuthError::UserNotFound(id) => "user not found: "@ + signed_decimal(id as int),
    }
}

impl AuthError {
    /// The message of the error.
    pub fn to_string(&self) -> (s: String)
        ensures
            s@ == auth_error_text(*self),
    {
        match self {
            AuthError::TrxFactoryError(m) => String::from_str("trx factory error: ").concat(m.as_str()),
            AuthError::PersistenceError(p) => {
                let inner = p.to_string();
                String::from_str("persistence error: ").concat(inner.as_str())
            },
            AuthError::IncorrectEmailOrPassword => String::from_str("incorrect email or password"),
            AuthError::UserAlreadyExists => String::from_str("user already exists"),
            AuthError::UserNotFound(id) => {
                let mut s = String::from_str("user not found: ");
                append_signed_decimal(&mut s, *id as i64);
                s
            },
        }
    }
}

impl From<PersistenceError> for AuthError {
    fn from(e: PersistenceError) -> (r: Self) {
        AuthError::PersistenceError(e)
    }
}

impl vstd::std_specs::convert::FromSpecImpl<PersistenceError> for AuthError {
    open spec fn obeys_from_spec() -> bool {
        true
    }

    open spec fn from_spec(e: PersistenceError) -> AuthError {
        AuthError::PersistenceError(e)
    }
}

/// Registers users and logs them in. It holds the user store and the
/// transaction factory that the steps' requests go to.
pub struct AuthService<P, T> {
    persistence_repo: P,
    trx_factory: T,
}

/// A registration waiting for the store's answer to: which user has this
/// e-mail address?
#[derive(Debug)]
pub struct PendingRegistration {
    pub name: String,
    pub email: String,
    pub password: String,
}

impl<P, T> AuthService<P, T> {
    /// The store this service asks.
    pub closed spec fn spec_persistence_repo(&self) -> P {
        self.persistence_repo
    }

    /// The transaction factory this service opens transactions with.
    pub closed spec fn spec_trx_factory(&self) -> T {
        self.trx_factory
    }

    pub fn new(persistence_repo: P, trx_factory: T) -> (service: Self)
        ensures
            service.spec_persistence_repo() == persistence_repo,
            service.spec_trx_factory() == trx_factory,
    {
        Self { persistence_repo, trx_factory }
    }

    pub fn persistence_repo(&self) -> (r: &P)
        ensures
            *r == self.spec_persistence_repo(),
    {
        &self.persistence_repo
    }

    pub fn trx_factory(&self) -> (r: &T)
        ensures
            *r == self.spec_trx_factory(),
    {
        &self.trx_factory
    }

    /// Starts a registration: within one transaction, the store is first asked
    /// for the user with `email`.
    pub fn register(&self, name: String, email: String, password: String) -> (pending: PendingRegistration)
        ensures
            pending == (PendingRegistration { name, email, password }),
    {
        PendingRegistration { name, email, password }
    }

    /// Given the store's answer for the e-mail address: the new user to save,
    /// or why registration stops. A user is saved only when no user holds the
    /// address.
    pub fn register_after_lookup(
        &self,
        pending: PendingRegistration,
        existing: Result<Option<User>, PersistenceError>,
    ) -> (next: Result<User, AuthError>)
        ensures
            match register_refusal(existing) {
                Some(e) => next == Err::<User, AuthError>(e),
                None => next matches Ok(user) && user.id == 0 && user.name == pending.name
                    && user.email == pending.email && user.password == pending.password
                    && is_clock_reading(user.created_at) && is_clock_reading(user.updated_at),
            },
            existing matches Ok(Some(_)) ==> next == Err::<User, AuthError>(AuthError::UserAlreadyExists),
            existing matches Err(e) ==> next == Err::<User, AuthError>(AuthError::PersistenceError(e)),
            next is Ok ==> existing == Ok::<Option<User>, PersistenceError>(None),
    {
        match existing {
            Err(e) => Err(AuthError::PersistenceError(e)),
            Ok(Some(_)) => Err(AuthError::UserAlreadyExists),
            Ok(None) => Ok(User::new(pending.name, pending.email, pending.password)),
        }
    }

    /// Given the store's answer to saving the new user: the id it was given.
    pub fn register_after_save(&self, saved: Result<i32, PersistenceError>) -> (result: Result<i32, AuthError>)
        ensures
            result == register_save_outcome(saved),
            match saved {
                Ok(id) => result == Ok::<i32, AuthError>(id),
                Err(e) => result == Err::<i32, AuthError>(AuthError::PersistenceError(e)),
            },
    {
        match saved {
            Ok(id) => Ok(id),
            Err(e) => Err(AuthError::PersistenceError(e)),
        }
    }

    /// Given the store's answer for the user with the e-mail address and
    /// password hash that were offered: that user, or why login fails.
    pub fn login_after_lookup(&self, found: Result<Option<User>, PersistenceError>) -> (result: Result<User, AuthError>)
        ensures
            result == login_outcome(found),
            match found {
                Ok(Some(user)) => result == Ok::<User, AuthError>(user),
                Ok(None) => result == Err::<User, AuthError>(AuthError::IncorrectEmailOrPassword),
                Err(e) => result == Err::<User, AuthError>(AuthError::PersistenceError(e)),
            },
    {
        match found {
            Ok(Some(user)) => Ok(user),
            Ok(None) => Err(AuthError::IncorrectEmailOrPassword),
            Err(e) => Err(AuthError::PersistenceError(e)),
        }
    }
}

/// Why registration stops once the store answered for the e-mail address
/// (`None`: it goes on to save the new user).
pub open spec fn register_refusal(existing: Result<Option<User>, PersistenceError>) -> Option<AuthError> {
    match existing {
        Err(e) => Some(AuthError::PersistenceError(e)),
        Ok(Some(_)) => Some(AuthError::UserAlreadyExists),
        Ok(None) => None,
    }
}

/// The outcome of registration once the store answered the save.
pub open spec fn register_save_outcome(saved: Result<i32, PersistenceError>) -> Result<i32, AuthError> {
    match saved {
        Ok(id) => Ok(id),
        Err(e) => Err(AuthError::PersistenceError(e)),
    }
}

/// The outcome of a whole registration, given the store's answers: to the
/// lookup of the e-mail address, and (when it is free) to saving the user.
pub open spec fn register_outcome(
    existing: Result<Option<User>, PersistenceError>,
    saved: Result<i32, PersistenceError>,
) -> Result<i32, AuthError> {
    match register_refusal(existing) {
        Some(e) => Err(e),
        None => register_save_outcome(saved),
    }
}

/// The outcome of a login, given the store's answer for the offered e-mail
/// address and password hash.
pub open spec fn login_outcome(found: Result<Option<User>, PersistenceError>) -> Result<User, AuthError> {
    match found {
        Ok(Some(user)) => Ok(user),
        Ok(None) => Err(AuthError::IncorrectEmailOrPassword),
        Err(e) => Err(AuthError::PersistenceError(e)),
    }
}

/// An address already taken is never registered again: whatever user the
/// store holds under it, registration stops with `UserAlreadyExists` and
/// nothing is saved; a whole registration succeeds only when the address
/// was free and the save succeeded.
pub proof fn lemma_taken_address_refused(
    holder: User,
    existing: Result<Option<User>, PersistenceError>,
    saved: Result<i32, PersistenceError>,
)
    ensures
        register_refusal(Ok(Some(holder))) == Some(AuthError::UserAlreadyExists),
        register_outcome(Ok(Some(holder)), saved) == Err::<i32, AuthError>(AuthError::UserAlreadyExists),
        register_outcome(existing, saved) is Ok ==> (existing == Ok::<Option<User>, PersistenceError>(None) && saved is Ok),
{
}

/// Login succeeds exactly when the store found a user for the offered
/// address and password hash, and then gives that user; no match is
/// refused as incorrect credentials, a store failure is passed on.
pub proof fn lemma_login_needs_matching_user(found: Result<Option<User>, PersistenceError>, user: User, e: PersistenceError)
    ensures
        login_outcome(found) is Ok <==> found matches Ok(Some(_)),
        login_outcome(Ok(Some(user))) == Ok::<User, AuthError>(user),
        login_outcome(Ok(None)) == Err::<User, AuthError>(AuthError::IncorrectEmailOrPassword),
        login_outcome(Err(e)) == Err::<User, AuthError>(AuthError::PersistenceError(e)),
{
}

} // verus!
