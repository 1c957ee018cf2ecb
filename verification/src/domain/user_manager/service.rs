//! Reading a user's details and renaming users.
use crate::domain::auth::entity::user::User;
use crate::domain::auth::infra::persistence::{emails_unique, rows_after_save, user_by_id};
use crate::time::Timestamp;
use crate::text::{append_signed_decimal, signed_decimal};
use vstd::prelude::*;

verus! {

/// A failure of the user store. Each variant carries the text of the failure
/// it wraps, as that failure renders itself.
#[derive(Debug)]
pub enum PersistenceError {
    /// The transaction factory failed (its `Display` text).
    TrxFactoryError(String),
    /// A query failed (the `Debug` text of its error report).
    InternalError(String),
}

/// The message of a store failure, as its `Display` writes it.
pub open spec fn persistence_error_text(e: PersistenceError) -> Seq<char> {
    match e {
        PersistenceError::TrxFactoryError(m) => "trx factory error: "@ + m@,
        PersistenceError::InternalError(m) => "internal error: "@ + m@,
    }
}

impl PersistenceError {
    /// The message of the failure.
    pub fn to_string(&self) -> (s: String)
        ensures
            s@ == persistence_error_text(*self),
    {
        match self {
            PersistenceError::TrxFactoryError(m) => String::from_str("trx factory error: ").concat(m.as_str()),
            PersistenceError::InternalError(m) => String::from_str("internal error: ").concat(m.as_str()),
        }
    }
}

/// Why reading or renaming a user failed.
#[derive(Debug)]
pub enum UserManagerError {
    /// The transaction factory failed (its `Display` text).
    TrxFactoryError(String),
    PersistenceError(PersistenceError),
    UserNotFound(i32),
}

/// The message of the error, as its `Display` writes it.
pub open spec fn user_manager_error_text(e: UserManagerError) -> Seq<char> {
    match e {
        UserManagerError::TrxFactoryError(m) => "trx factory error: "@ + m@,
        UserManagerError::PersistenceError(p) => "persistence error: "@ + persistence_error_text(p),
        UserManagerError::UserNotFound(id) => "user not found: "@ + signed_decimal(id as int),
    }
}

impl UserManagerError {
    /// The message of the error.
    pub fn to_string(&self) -> (s: String)
        ensures
            s@ == user_manager_error_text(*self),
    {
        match self {
            UserManagerError::TrxFactoryError(m) => String::from_str("trx factory error: ").concat(m.as_str()),
            UserManagerError::PersistenceError(p) => {
                let inner = p.to_string();
                String::from_str("persistence error: ").concat(inner.as_str())
            },
            UserManagerError::UserNotFound(id) => {
                let mut s = String::from_str("user not found: ");
                append_signed_decimal(&mut s, *id as i64);
                s
            },
        }
    }
}

impl From<PersistenceError> for UserManagerError {
    fn from(e: PersistenceError) -> (r: Self) {
        UserManagerError::PersistenceError(e)
    }
}

impl vstd::std_specs::convert::FromSpecImpl<PersistenceError> for UserManagerError {
    open spec fn obeys_from_spec() -> bool {
        true
    }

    open spec fn from_spec(e: PersistenceError) -> UserManagerError {
        UserManagerError::PersistenceError(e)
    }
}

/// Reads and renames users. It holds the user store and the transaction
/// factory that the steps' requests go to.
pub struct UserManagerService<P, T> {
    persistence_repo: P,
    trx_factory: T,
}

/// A rename waiting for the store's answer to: which user has this id?
#[derive(Debug)]
pub struct PendingNameChange {
    pub user_id: i32,
    pub name: String,
}

/// `user` with its name replaced by `name`, all else kept.
pub open spec fn renamed(user: User, name: String) -> User {
    User { name, ..user }
}

impl<P, T> UserManagerService<P, T> {
    /// The store this service asks.
    pub closed spec fn spec_persistence_repo(&self) -> P {
        self.persistence_repo
    }

    /// The transaction factory this service opens transactions with.
    pub closed spec fn spec_trx_factory(&self) -> T {
        self.trx_factory
    }

    pub fn new(persistence_repo: P, trx_factory: T) -> (service: Self)
        ensures
            service.spec_persistence_repo() == persistence_repo,
            service.spec_trx_factory() == trx_factory,
    {
        Self { persistence_repo, trx_factory }
    }

    pub fn persistence_repo(&self) -> (r: &P)
        ensures
            *r == self.spec_persistence_repo(),
    {
        &self.persistence_repo
    }

    pub fn trx_factory(&self) -> (r: &T)
        ensures
            *r == self.spec_trx_factory(),
    {
        &self.trx_factory
    }

    /// Starts renaming user `user_id` to `name`: within one transaction, the
    /// store is first asked for that user.
    pub fn change_name(&self, user_id: i32, name: String) -> (pending: PendingNameChange)
        ensures
            pending == (PendingNameChange { user_id, name }),
    {
        PendingNameChange { user_id, name }
    }

    /// Given the store's answer for the user: the user to save, which differs
    /// from the stored one in its name alone, or why renaming stops.
    pub fn change_name_after_lookup(
        &self,
        pending: PendingNameChange,
        found: Result<Option<User>, PersistenceError>,
    ) -> (next: Result<User, UserManagerError>)
        ensures
            match change_name_refusal(pending.user_id, found) {
                Some(e) => next == Err::<User, UserManagerError>(e),
                None => found matches Ok(Some(user)) && next == Ok::<User, UserManagerError>(renamed(user, pending.name)),
            },
            match found {
                Err(e) => next == Err::<User, UserManagerError>(UserManagerError::PersistenceError(e)),
                Ok(None) => next == Err::<User, UserManagerError>(UserManagerError::UserNotFound(pending.user_id)),
                Ok(Some(user)) => next matches Ok(saved) && saved.name == pending.name && saved.id == user.id
                    && saved.email == user.email && saved.password == user.password
                    && saved.created_at == user.created_at && saved.updated_at == user.updated_at,
            },
    {
        match found {
            Err(e) => Err(UserManagerError::PersistenceError(e)),
            Ok(None) => Err(UserManagerError::UserNotFound(pending.user_id)),
            Ok(Some(user)) => {
                let mut user = user;
                user.name = pending.name;
                Ok(user)
            },
        }
    }

    /// Given the store's answer to saving the renamed user: whether renaming succeeded.
    pub fn change_name_after_save(&self, saved: Result<i32, PersistenceError>) -> (result: Result<(), UserManagerError>)
        ensures
            result == change_name_save_outcome(saved),
            match saved {
                Ok(_) => result is Ok,
                Err(e) => result == Err::<(), UserManagerError>(UserManagerError::PersistenceError(e)),
            },
    {
        match saved {
            Ok(_) => Ok(()),
            Err(e) => Err(UserManagerError::PersistenceError(e)),
        }
    }

    /// Given the store's answer for user `user_id`: that user, or why it cannot be shown.
    pub fn get_user_info_after_lookup(
        &self,
        user_id: i32,
        found: Result<Option<User>, PersistenceError>,
    ) -> (result: Result<User, UserManagerError>)
        ensures
            result == get_user_info_outcome(user_id, found),
            match found {
                Ok(Some(user)) => result == Ok::<User, UserManagerError>(user),
                Ok(None) => result == Err::<User, UserManagerError>(UserManagerError::UserNotFound(user_id)),
                Err(e) => result == Err::<User, UserManagerError>(UserManagerError::PersistenceError(e)),
            },
    {
        match found {
            Ok(Some(user)) => Ok(user),
            Ok(None) => Err(UserManagerError::UserNotFound(user_id)),
            Err(e) => Err(UserManagerError::PersistenceError(e)),
        }
    }
}

/// Why renaming user `user_id` stops once the store answered for that user
/// (`None`: it goes on to save the renamed user).
pub open spec fn change_name_refusal(user_id: i32, found: Result<Option<User>, PersistenceError>) -> Option<UserManagerError> {
    match found {
        Err(e) => Some(UserManagerError::PersistenceError(e)),
        Ok(None) => Some(UserManagerError::UserNotFound(user_id)),
        Ok(Some(_)) => None,
    }
}

/// The outcome of renaming once the store answered the save.
pub open spec fn change_name_save_outcome(saved: Result<i32, PersistenceError>) -> Result<(), UserManagerError> {
    match saved {
        Ok(_) => Ok(()),
        Err(e) => Err(UserManagerError::PersistenceError(e)),
    }
}

/// The outcome of a whole rename of user `user_id`, given the store's
/// answers: to the lookup of the user, and (when found) to the save.
pub open spec fn change_name_outcome(
    user_id: i32,
    found: Result<Option<User>, PersistenceError>,
    saved: Result<i32, PersistenceError>,
) -> Result<(), UserManagerError> {
    match change_name_refusal(user_id, found) {
        Some(e) => Err(e),
        None => change_name_save_outcome(saved),
    }
}

/// The outcome of reading user `user_id`, given the store's answer.
pub open spec fn get_user_info_outcome(user_id: i32, found: Result<Option<User>, PersistenceError>) -> Result<User, UserManagerError> {
    match found {
        Ok(Some(user)) => Ok(user),
        Ok(None) => Err(UserManagerError::UserNotFound(user_id)),
        Err(e) => Err(UserManagerError::PersistenceError(e)),
    }
}

/// Renaming a stored user and then reading that user gives the new name.
/// The store is the user table `rows` (each user stored under its own id, no
/// two sharing an e-mail address), which saves by e-mail address; the rename
/// reads the user from it and saves the renamed user (the save query
/// running at `database_now` and sent at `server_now`), the save answering
/// `saved_id`; nothing else writes in between.
pub proof fn lemma_rename_then_read(
    rows: Map<i32, User>,
    user_id: i32,
    name: String,
    saved_id: i32,
    database_now: Timestamp,
    server_now: Timestamp,
)
    requires
        rows.contains_key(user_id),
        rows[user_id].id == user_id,
        emails_unique(rows),
    ensures
        ({
            let found = Ok::<Option<User>, PersistenceError>(user_by_id(rows, user_id));
            let after = rows_after_save(rows, renamed(rows[user_id], name), database_now, server_now);
            &&& change_name_outcome(user_id, found, Ok(saved_id)) is Ok
            &&& get_user_info_outcome(user_id, Ok(user_by_id(after, user_id))) matches Ok(u)
            &&& u.id == user_id
            &&& u.name == name
        }),
{
    let to_save = renamed(rows[user_id], name);
    assert(rows.contains_key(user_id) && rows[user_id].email@ == to_save.email@);
    let id = choose|id: i32| rows.contains_key(id) && rows[id].email@ == to_save.email@;
    assert(rows[id].email@ == rows[user_id].email@);
    assert(id == user_id);
}

/// A renamed user differs from the stored one in its name alone, and the
/// name is the requested one.
pub proof fn lemma_rename_keeps_all_but_name(user: User, name: String)
    ensures
        renamed(user, name).name == name,
        renamed(user, name).id == user.id,
        renamed(user, name).email == user.email,
        renamed(user, name).password == user.password,
        renamed(user, name).created_at == user.created_at,
        renamed(user, name).updated_at == user.updated_at,
{
}

/// A rename succeeds only when the store found the user and the save
/// succeeded; a missing user is reported under the requested id. Reading a
/// user gives exactly what the store found, and a missing user is reported
/// under the requested id.
pub proof fn lemma_user_outcomes(
    user_id: i32,
    found: Result<Option<User>, PersistenceError>,
    saved: Result<i32, PersistenceError>,
)
    ensures
        change_name_outcome(user_id, found, saved) is Ok ==> (found matches Ok(Some(_)) && saved is Ok),
        found == Ok::<Option<User>, PersistenceError>(None) ==> change_name_outcome(user_id, found, saved)
            == Err::<(), UserManagerError>(UserManagerError::UserNotFound(user_id)),
        get_user_info_outcome(user_id, found) matches Ok(u) ==> found == Ok::<Option<User>, PersistenceError>(Some(u)),
        found == Ok::<Option<User>, PersistenceError>(None) ==> get_user_info_outcome(user_id, found)
            == Err::<User, UserManagerError>(UserManagerError::UserNotFound(user_id)),
{
}

} // verus!
