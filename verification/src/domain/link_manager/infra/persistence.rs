//! The row shape in which the link store keeps links.
use crate::domain::link_manager::entity::link::{is_url_safe_id, Link, LinkId, LINK_ID_LENGTH};
use crate::domain::link_manager::service::PersistenceError;
use crate::time::Timestamp;
use vstd::prelude::*;
use vstd::std_specs::convert::FromSpec;

verus! {

/// A link as one row of the link store.
#[derive(Debug)]
pub struct LinkDto {
    pub id: String,
    pub user_id: i32,
    pub redirect_url: String,
    pub label: String,
    pub views: i64,
    pub created_at: Timestamp,
    pub last_view: Option<Timestamp>,
}

impl From<Link> for LinkDto {
    fn from(link: Link) -> (dto: Self) {
        Self {
            id: link.id.value.clone(),
            user_id: link.user_id,
            redirect_url: link.redirect_url.clone(),
            label: link.label.clone(),
            views: link.views,
            created_at: link.created_at,
            last_view: link.last_view,
        }
    }
}

impl vstd::std_specs::convert::FromSpecImpl<Link> for LinkDto {
    open spec fn obeys_from_spec() -> bool {
        true
    }

    open spec fn from_spec(link: Link) -> LinkDto {
        LinkDto {
            id: link.id.value,
            user_id: link.user_id,
            redirect_url: link.redirect_url,
            label: link.label,
            views: link.views,
            created_at: link.created_at,
            last_view: link.last_view,
        }
    }
}

impl From<LinkDto> for Link {
    fn from(link: LinkDto) -> (r: Self) {
        let id = LinkId::from_string(link.id);
        Link::from_parts(id, link.user_id, link.redirect_url, link.label, link.views, link.created_at, link.last_view)
    }
}

impl vstd::std_specs::convert::FromSpecImpl<LinkDto> for Link {
    open spec fn obeys_from_spec() -> bool {
        true
    }

    open spec fn from_spec(row: LinkDto) -> Link {
        Link {
            id: LinkId { value: row.id },
            user_id: row.user_id,
            redirect_url: row.redirect_url,
            label: row.label,
            views: row.views,
            created_at: row.created_at,
            last_view: row.last_view,
        }
    }
}

/// The link store, kept in a database reached through the transaction
/// factory `F`. Its queries are made where the database is reached; the
/// choice of new ids is made here.
pub struct LinkManagerPersistenceRepo<F> {
    trx_factory: F,
}

impl<F> LinkManagerPersistenceRepo<F> {
    /// The transaction factory of the store.
    pub closed spec fn spec_trx_factory(&self) -> F {
        self.trx_factory
    }

    pub fn new(trx_factory: F) -> (repo: Self)
        ensures
            repo.spec_trx_factory() == trx_factory,
    {
        Self { trx_factory }
    }

    pub fn trx_factory(&self) -> (r: &F)
        ensures
            *r == self.spec_trx_factory(),
    {
        &self.trx_factory
    }

    /// The id of the next link: a fresh random one. The database is not
    /// asked, so this never fails.
    pub fn next_link_id(&self) -> (id: Result<LinkId, PersistenceError>)
        ensures
            id matches Ok(id) && is_url_safe_id(id.value@, LINK_ID_LENGTH as nat),
    {
        Ok(LinkId::generate())
    }
}

/// What the link table answers when asked for the link whose id text is `id`.
pub open spec fn link_by_id(rows: Map<Seq<char>, Link>, id: Seq<char>) -> Option<Link> {
    if rows.contains_key(id) {
        Some(rows[id])
    } else {
        None
    }
}

/// The link table after counting a view of the link with id text `id` at
/// time `now`, as the counting query does it: one more view, last viewed
/// now, the rest kept. The table is unchanged when there is no such link.
pub open spec fn rows_after_view(rows: Map<Seq<char>, Link>, id: Seq<char>, now: Timestamp) -> Map<Seq<char>, Link> {
    if rows.contains_key(id) {
        rows.insert(id, Link { views: (rows[id].views + 1) as i64, last_view: Some(now), ..rows[id] })
    } else {
        rows
    }
}

/// Storing a link as a row and reading the row back gives the same link.
pub proof fn lemma_link_row_round_trip(link: Link)
    ensures
        <Link as FromSpec<LinkDto>>::from_spec(<LinkDto as FromSpec<Link>>::from_spec(link)) == link,
{
}

/// Reading a row as a link and storing that link gives the same row.
pub proof fn lemma_row_link_round_trip(row: LinkDto)
    ensures
        <LinkDto as FromSpec<Link>>::from_spec(<Link as FromSpec<LinkDto>>::from_spec(row)) == row,
{
}

} // verus!
