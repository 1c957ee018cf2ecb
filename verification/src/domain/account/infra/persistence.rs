//! The row shape in which the account side stores links: numbers as text.
use crate::domain::account::entity::link::{Link, LinkId};
use crate::domain::link_manager::entity::link::{is_url_safe_id, LINK_ID_LENGTH};
use crate::text::{format_i64, signed_decimal};
use crate::time::Timestamp;
use vstd::prelude::*;

verus! {

/// An account link as one row, with the owner and the view count written
/// as decimal text.
#[derive(Debug)]
pub struct LinkDto {
    pub id: String,
    pub user_id: String,
    pub value: String,
    pub views: String,
    pub created_at: Timestamp,
    pub last_view: Option<Timestamp>,
}

impl LinkDto {
    /// The row of `link`.
    pub fn from(link: Link) -> (dto: Self)
        ensures
            dto.id@ == link.id.value@,
            dto.user_id@ == signed_decimal(link.user_id as int),
            dto.value == link.value,
            dto.views@ == signed_decimal(link.views as int),
            dto.created_at == link.created_at,
            dto.last_view == link.last_view,
    {
        Self {
            id: link.id.to_string(),
            user_id: format_i64(link.user_id as i64),
            value: link.value.clone(),
            views: format_i64(link.views),
            created_at: link.created_at,
            last_view: link.last_view,
        }
    }
}

/// The account link store, kept in a database reached through the
/// transaction factory `F`.
pub struct AccountPersistenceRepo<F> {
    trx_factory: F,
}

impl<F> AccountPersistenceRepo<F> {
    /// The transaction factory of the store.
    pub closed spec fn spec_trx_factory(&self) -> F {
        self.trx_factory
    }

    pub fn new(trx_factory: F) -> (repo: Self)
        ensures
            repo.spec_trx_factory() == trx_factory,
    {
        Self { trx_factory }
    }

    pub fn trx_factory(&self) -> (r: &F)
        ensures
            *r == self.spec_trx_factory(),
    {
        &self.trx_factory
    }

    /// Saving a link: the store keeps nothing yet and answers with the link
    /// as given.
    pub fn save_link(&self, link: Link) -> (saved: Link)
        ensures
            saved == link,
    {
        link
    }

    /// The id of the next link: a fresh random one; the database is not asked.
    pub fn next_link_id(&self) -> (id: LinkId)
        ensures
            is_url_safe_id(id.value@, LINK_ID_LENGTH as nat),
    {
        LinkId::generate()
    }
}

} // verus!
