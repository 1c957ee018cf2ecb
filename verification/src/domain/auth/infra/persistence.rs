//! The user store.
use crate::domain::auth::entity::user::User;
use crate::time::Timestamp;
use vstd::prelude::*;

verus! {

/// The user store, kept in a database reached through the transaction
/// factory `F`. Its queries are made where the database is reached.
pub struct AuthPersistenceRepo<F> {
    trx_factory: F,
}

impl<F> AuthPersistenceRepo<F> {
    /// The transaction factory of the store.
    pub closed spec fn spec_trx_factory(&self) -> F {
        self.trx_factory
    }

    pub fn new(trx_factory: F) -> (repo: Self)
        ensures
            repo.spec_trx_factory() == trx_factory,
    {
        Self { trx_factory }
    }

    pub fn trx_factory(&self) -> (r: &F)
        ensures
            *r == self.spec_trx_factory(),
    {
        &self.trx_factory
    }
}

/// What the user table answers when asked for user `id`.
pub open spec fn user_by_id(rows: Map<i32, User>, id: i32) -> Option<User> {
    if rows.contains_key(id) {
        Some(rows[id])
    } else {
        None
    }
}

/// No two stored users share an e-mail address (the table's unique key).
pub open spec fn emails_unique(rows: Map<i32, User>) -> bool {
    forall|i: i32, j: i32|
        #![trigger rows[i], rows[j]]
        rows.contains_key(i) && rows.contains_key(j) && rows[i].email@ == rows[j].email@ ==> i == j
}

/// The user table after saving `user`, as the save query does it. The
/// query takes two times: `database_now`, the database's clock when it
/// runs, and `server_now`, the server's clock when it is sent. The stored
/// user with the same e-mail address takes the new name and `server_now` as
/// its update time, and keeps the rest; when no stored user has the
/// address, `user` is added under a new id, created at `database_now` and
/// updated at `server_now`.
pub open spec fn rows_after_save(rows: Map<i32, User>, user: User, database_now: Timestamp, server_now: Timestamp) -> Map<i32, User> {
    if exists|id: i32| rows.contains_key(id) && rows[id].email@ == user.email@ {
        let id = choose|id: i32| rows.contains_key(id) && rows[id].email@ == user.email@;
        rows.insert(id, User { name: user.name, updated_at: server_now, ..rows[id] })
    } else {
        let id = choose|id: i32| !rows.contains_key(id);
        rows.insert(id, User { id, created_at: database_now, updated_at: server_now, ..user })
    }
}

} // verus!
