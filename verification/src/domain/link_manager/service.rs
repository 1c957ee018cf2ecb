//! Creating, viewing, counting and deleting short links, with a read-through
//! cache in front of the link store.
use crate::domain::link_manager::entity::link::{Link, LinkId};
use crate::domain::link_manager::infra::persistence::{link_by_id, rows_after_view};
use crate::time::{is_clock_reading, Timestamp};
use crate::text::{append_signed_decimal, signed_decimal};
use vstd::prelude::*;

verus! {

/// A failure of the link store. Each variant carries the text of the failure
/// it wraps, as that failure renders itself.
#[derive(Debug)]
pub enum PersistenceError {
    /// The transaction factory failed (its `Display` text).
    TrxFactoryError(String),
    /// A query failed (the `Debug` text of its error report).
    InternalError(String),
}

/// The message of a store failure, as its `Display` writes it.
pub open spec fn persistence_error_text(e: PersistenceError) -> Seq<char> {
    match e {
        PersistenceError::TrxFactoryError(m) => "trx factory error: "@ + m@,
        PersistenceError::InternalError(m) => "internal error: "@ + m@,
    }
}

impl PersistenceError {
    /// The message of the failure.
    pub fn to_string(&self) -> (s: String)
        ensures
            s@ == persistence_error_text(*self),
    {
        match self {
            PersistenceError::TrxFactoryError(m) => String::from_str("trx factory error: ").concat(m.as_str()),
            PersistenceError::InternalError(m) => String::from_str("internal error: ").concat(m.as_str()),
        }
    }
}

/// Why a link operation failed.
#[derive(Debug)]
pub enum LinkManagerError {
    /// The transaction factory failed (its `Display` text).
    TrxFactoryError(String),
    PersistenceError(PersistenceError),
    LinkNotFound(LinkId),
    LinkNotOwnedByUser(LinkId, i32),
    /// A cached link could not be decoded (the decoder's `Display` text).
    CacheError(String),
}

/// The message of the error, as its `Display` writes it.
pub open spec fn link_manager_error_text(e: LinkManagerError) -> Seq<char> {
    match e {
        LinkManagerError::TrxFactoryError(m) => "trx factory error: "@ + m@,
        LinkManagerError::PersistenceError(p) => "persistence error: "@ + persistence_error_text(p),
        LinkManagerError::LinkNotFound(id) => "link not found: "@ + id.value@,
        LinkManagerError::LinkNotOwnedByUser(id, user_id) => "link not owned by user: "@ + id.value@ + ", "@
            + signed_decimal(user_id as int),
        LinkManagerError::CacheError(m) => "failed to deserialize: "@ + m@,
    }
}

impl LinkManagerError {
    /// The message of the error.
    pub fn to_string(&self) -> (s: String)
        ensures
            s@ == link_manager_error_text(*self),
    {
        match self {
            LinkManagerError::TrxFactoryError(m) => String::from_str("trx factory error: ").concat(m.as_str()),
            LinkManagerError::PersistenceError(p) => {
                let inner = p.to_string();
                String::from_str("persistence error: ").concat(inner.as_str())
            },
            LinkManagerError::LinkNotFound(id) => String::from_str("link not found: ").concat(id.value.as_str()),
            LinkManagerError::LinkNotOwnedByUser(id, user_id) => {
                let mut s = String::from_str("link not owned by user: ").concat(id.value.as_str()).concat(", ");
                append_signed_decimal(&mut s, *user_id as i64);
                s
            },
            LinkManagerError::CacheError(m) => String::from_str("failed to deserialize: ").concat(m.as_str()),
        }
    }
}

impl From<PersistenceError> for LinkManagerError {
    fn from(e: PersistenceError) -> (r: Self) {
        LinkManagerError::PersistenceError(e)
    }
}

impl vstd::std_specs::convert::FromSpecImpl<PersistenceError> for LinkManagerError {
    open spec fn obeys_from_spec() -> bool {
        true
    }

    open spec fn from_spec(e: PersistenceError) -> LinkManagerError {
        LinkManagerError::PersistenceError(e)
    }
}

/// The key under which the link with id text `id` is cached.
pub open spec fn cache_key_of(id: Seq<char>) -> Seq<char> {
    id
}

/// What the cache answered for a link's key.
#[derive(Debug)]
pub enum CacheRead {
    /// The key held text; it decoded to this link, or failed to decode with
    /// this message.
    Hit(Result<Link, String>),
    /// The key held no text, or the cache could not be read.
    Miss,
}

/// What reading the cache settles.
#[derive(Debug)]
pub enum CacheOutcome {
    /// The cache settled the lookup, with this result.
    Served(Result<Link, LinkManagerError>),
    /// The link must be looked up in the store.
    QueryStore,
}

/// A request to store `link` in the cache under `key`, expiring after
/// `expire_secs` seconds. It is sent in the background; its result is ignored.
#[derive(Debug)]
pub struct CacheWrite {
    pub key: String,
    pub link: Link,
    pub expire_secs: u64,
}

/// A link creation waiting for the store's next link id.
#[derive(Debug)]
pub struct PendingLink {
    pub user_id: i32,
    pub redirect_url: String,
    pub label: String,
}

/// A view waiting for the store to count it: `link` is answered once the
/// views of `link_id` were incremented.
#[derive(Debug)]
pub struct PendingView {
    pub link_id: LinkId,
    pub link: Link,
}

/// Creates, views, counts and deletes short links. It holds the link store,
/// the transaction factory and the cache client that the steps' requests go
/// to, and how long a cached link lives.
pub struct LinkManagerService<P, T, C> {
    persistence_repo: P,
    trx_factory: T,
    redis_client: C,
    cache_expr_sec: u64,
}

impl<P, T, C> LinkManagerService<P, T, C> {
    /// The store this service asks.
    pub closed spec fn spec_persistence_repo(&self) -> P {
        self.persistence_repo
    }

    /// The transaction factory this service opens transactions with.
    pub closed spec fn spec_trx_factory(&self) -> T {
        self.trx_factory
    }

    /// The client of the cache.
    pub closed spec fn spec_redis_client(&self) -> C {
        self.redis_client
    }

    /// How many seconds a cached link lives.
    pub closed spec fn spec_cache_expr_sec(&self) -> u64 {
        self.cache_expr_sec
    }

    pub fn new(persistence_repo: P, trx_factory: T, redis_client: C, cache_expr_sec: u64) -> (service: Self)
        ensures
            service.spec_persistence_repo() == persistence_repo,
            service.spec_trx_factory() == trx_factory,
            service.spec_redis_client() == redis_client,
            service.spec_cache_expr_sec() == cache_expr_sec,
    {
        Self { persistence_repo, trx_factory, redis_client, cache_expr_sec }
    }

    pub fn persistence_repo(&self) -> (r: &P)
        ensures
            *r == self.spec_persistence_repo(),
    {
        &self.persistence_repo
    }

    pub fn trx_factory(&self) -> (r: &T)
        ensures
            *r == self.spec_trx_factory(),
    {
        &self.trx_factory
    }

    pub fn redis_client(&self) -> (r: &C)
        ensures
            *r == self.spec_redis_client(),
    {
        &self.redis_client
    }

    pub fn cache_expr_sec(&self) -> (secs: u64)
        ensures
            secs == self.spec_cache_expr_sec(),
    {
        self.cache_expr_sec
    }

    /// Starts creating a link for `user_id`: within one transaction, the store
    /// is first asked for a fresh link id.
    pub fn create_link(&self, user_id: i32, redirect_url: String, label: String) -> (pending: PendingLink)
        ensures
            pending == (PendingLink { user_id, redirect_url, label }),
    {
        PendingLink { user_id, redirect_url, label }
    }

    /// Given the fresh id: the new link to save (never viewed), or why
    /// creation stops.
    pub fn create_link_after_id(&self, pending: PendingLink, id: Result<LinkId, PersistenceError>) -> (next: Result<Link, LinkManagerError>)
        ensures
            id matches Err(e) ==> next == Err::<Link, LinkManagerError>(LinkManagerError::PersistenceError(e)),
            match create_link_refusal(id) {
                Some(e) => next == Err::<Link, LinkManagerError>(e),
                None => id matches Ok(id) && (next matches Ok(link) && link.id == id && link.user_id == pending.user_id
                    && link.redirect_url == pending.redirect_url && link.label == pending.label
                    && link.views == 0 && link.last_view is None && is_clock_reading(link.created_at)),
            },
    {
        match id {
            Err(e) => Err(LinkManagerError::PersistenceError(e)),
            Ok(id) => Ok(Link::new(id, pending.user_id, pending.redirect_url, pending.label)),
        }
    }

    /// Given the store's answer to saving `link`: the id of the new link.
    pub fn create_link_after_save(&self, link: Link, saved: Result<(), PersistenceError>) -> (result: Result<LinkId, LinkManagerError>)
        ensures
            result == create_link_save_outcome(link.id, saved),
            result is Ok ==> saved is Ok,
            saved is Ok ==> result == Ok::<LinkId, LinkManagerError>(link.id),
            saved matches Err(e) ==> result == Err::<LinkId, LinkManagerError>(LinkManagerError::PersistenceError(e)),
    {
        match saved {
            Ok(_) => Ok(link.id.clone()),
            Err(e) => Err(LinkManagerError::PersistenceError(e)),
        }
    }

    /// The cache key of a link: viewing starts by reading it.
    pub fn cache_key(&self, link_id: &LinkId) -> (key: String)
        ensures
            key@ == cache_key_of(link_id.value@),
    {
        link_id.to_string()
    }

    /// Given the cache's answer: the link (or the decoding error) when the
    /// key held text, else the order to ask the store.
    pub fn get_and_cache_link_after_cache(&self, read: CacheRead) -> (outcome: CacheOutcome)
        ensures
            outcome == cache_read_outcome(read),
            match read {
                CacheRead::Hit(Ok(link)) => outcome == CacheOutcome::Served(Ok(link)),
                CacheRead::Hit(Err(m)) => outcome == CacheOutcome::Served(Err(LinkManagerError::CacheError(m))),
                CacheRead::Miss => outcome == CacheOutcome::QueryStore,
            },
    {
        match read {
            CacheRead::Hit(Ok(link)) => CacheOutcome::Served(Ok(link)),
            CacheRead::Hit(Err(m)) => CacheOutcome::Served(Err(LinkManagerError::CacheError(m))),
            CacheRead::Miss => CacheOutcome::QueryStore,
        }
    }

    /// Given the store's answer for `link_id`: the link, and the order to
    /// cache exactly that link under the key it is read by, for this
    /// service's lifetime of cached links; or why the link cannot be had
    /// (and nothing is cached).
    pub fn get_and_cache_link_after_query(
        &self,
        link_id: &LinkId,
        found: Result<Option<Link>, PersistenceError>,
    ) -> (next: (Result<Link, LinkManagerError>, Option<CacheWrite>))
        ensures
            next.0 == store_fetch_outcome(*link_id, found),
            match found {
                Err(e) => next.0 == Err::<Link, LinkManagerError>(LinkManagerError::PersistenceError(e)),
                Ok(None) => next.0 == Err::<Link, LinkManagerError>(LinkManagerError::LinkNotFound(*link_id)),
                Ok(Some(link)) => next.0 == Ok::<Link, LinkManagerError>(link),
            },
            match found {
                Ok(Some(link)) => next.1 matches Some(write) && write.link == link
                    && write.key@ == cache_key_of(link_id.value@)
                    && write.expire_secs == self.spec_cache_expr_sec(),
                _ => next.1 is None,
            },
    {
        match found {
            Err(e) => (Err(LinkManagerError::PersistenceError(e)), None),
            Ok(None) => (Err(LinkManagerError::LinkNotFound(link_id.clone())), None),
            Ok(Some(link)) => {
                let write = CacheWrite { key: self.cache_key(link_id), link: link.clone(), expire_secs: self.cache_expr_sec };
                (Ok(link), Some(write))
            },
        }
    }

    /// Given the link fetched for `link_id` (from the cache or the store):
    /// the order to count the view, or the error that ends viewing uncounted.
    pub fn view_link_after_fetch(&self, link_id: &LinkId, fetched: Result<Link, LinkManagerError>) -> (next: Result<PendingView, LinkManagerError>)
        ensures
            match fetched {
                Ok(link) => next == Ok::<PendingView, LinkManagerError>(PendingView { link_id: *link_id, link }),
                Err(e) => next == Err::<PendingView, LinkManagerError>(e),
            },
    {
        match fetched {
            Ok(link) => Ok(PendingView { link_id: link_id.clone(), link }),
            Err(e) => Err(e),
        }
    }

    /// Given the store's answer to counting the view: the link as fetched
    /// (before the count), or the store's failure.
    pub fn view_link_after_increment(&self, pending: PendingView, counted: Result<(), PersistenceError>) -> (result: Result<Link, LinkManagerError>)
        ensures
            result == view_count_outcome(pending.link, counted),
            match counted {
                Ok(_) => result == Ok::<Link, LinkManagerError>(pending.link),
                Err(e) => result == Err::<Link, LinkManagerError>(LinkManagerError::PersistenceError(e)),
            },
    {
        match counted {
            Ok(_) => Ok(pending.link),
            Err(e) => Err(LinkManagerError::PersistenceError(e)),
        }
    }

    /// Given the store's answer for `link_id`: how often the link was viewed.
    pub fn get_link_views_after_lookup(&self, link_id: &LinkId, found: Result<Option<Link>, PersistenceError>) -> (result: Result<i64, LinkManagerError>)
        ensures
            result == get_link_views_outcome(*link_id, found),
            match found {
                Ok(Some(link)) => result == Ok::<i64, LinkManagerError>(link.views),
                Ok(None) => result == Err::<i64, LinkManagerError>(LinkManagerError::LinkNotFound(*link_id)),
                Err(e) => result == Err::<i64, LinkManagerError>(LinkManagerError::PersistenceError(e)),
            },
    {
        match found {
            Ok(Some(link)) => Ok(link.views),
            Ok(None) => Err(LinkManagerError::LinkNotFound(link_id.clone())),
            Err(e) => Err(LinkManagerError::PersistenceError(e)),
        }
    }

    /// Given the store's answer for `link_id`: the id to delete, which is
    /// given only when the link exists and belongs to `user_id`; or why
    /// deletion stops.
    pub fn delete_link_after_lookup(
        &self,
        link_id: LinkId,
        user_id: i32,
        found: Result<Option<Link>, PersistenceError>,
    ) -> (next: Result<LinkId, LinkManagerError>)
        ensures
            match delete_link_refusal(link_id, user_id, found) {
                Some(e) => next == Err::<LinkId, LinkManagerError>(e),
                None => next == Ok::<LinkId, LinkManagerError>(link_id),
            },
            next is Ok ==> (found matches Ok(Some(link)) && link.user_id == user_id),
            next is Ok ==> next == Ok::<LinkId, LinkManagerError>(link_id),
            found matches Err(e) ==> next == Err::<LinkId, LinkManagerError>(LinkManagerError::PersistenceError(e)),
            found == Ok::<Option<Link>, PersistenceError>(None) ==> next == Err::<LinkId, LinkManagerError>(
                LinkManagerError::LinkNotFound(link_id),
            ),
            (found matches Ok(Some(link)) && link.user_id != user_id) ==> next == Err::<LinkId, LinkManagerError>(
                LinkManagerError::LinkNotOwnedByUser(link_id, user_id),
            ),
    {
        match found {
            Err(e) => Err(LinkManagerError::PersistenceError(e)),
            Ok(None) => Err(LinkManagerError::LinkNotFound(link_id)),
            Ok(Some(link)) => {
                if link.user_id != user_id {
                    Err(LinkManagerError::LinkNotOwnedByUser(link_id, user_id))
                } else {
                    Ok(link_id)
                }
            },
        }
    }

    /// Given the store's answer to deleting the link: whether deletion succeeded.
    pub fn delete_link_after_delete(&self, deleted: Result<(), PersistenceError>) -> (result: Result<(), LinkManagerError>)
        ensures
            result == delete_link_delete_outcome(deleted),
            match deleted {
                Ok(_) => result is Ok,
                Err(e) => result == Err::<(), LinkManagerError>(LinkManagerError::PersistenceError(e)),
            },
    {
        match deleted {
            Ok(_) => Ok(()),
            Err(e) => Err(LinkManagerError::PersistenceError(e)),
        }
    }
}

/// Why creating a link stops once the store answered for a fresh id
/// (`None`: it goes on to save the new link).
pub open spec fn create_link_refusal(id: Result<LinkId, PersistenceError>) -> Option<LinkManagerError> {
    match id {
        Err(e) => Some(LinkManagerError::PersistenceError(e)),
        Ok(_) => None,
    }
}

/// The outcome of creating the link with id `id` once the store answered the save.
pub open spec fn create_link_save_outcome(id: LinkId, saved: Result<(), PersistenceError>) -> Result<LinkId, LinkManagerError> {
    match saved {
        Ok(_) => Ok(id),
        Err(e) => Err(LinkManagerError::PersistenceError(e)),
    }
}

/// The outcome of a whole link creation, given the store's answers: the
/// fresh id, and (when there is one) the answer to saving the link.
pub open spec fn create_link_outcome(id: Result<LinkId, PersistenceError>, saved: Result<(), PersistenceError>) -> Result<LinkId, LinkManagerError> {
    match id {
        Err(e) => Err(LinkManagerError::PersistenceError(e)),
        Ok(id) => create_link_save_outcome(id, saved),
    }
}

/// What the cache's answer settles.
pub open spec fn cache_read_outcome(read: CacheRead) -> CacheOutcome {
    match read {
        CacheRead::Hit(Ok(link)) => CacheOutcome::Served(Ok(link)),
        CacheRead::Hit(Err(m)) => CacheOutcome::Served(Err(LinkManagerError::CacheError(m))),
        CacheRead::Miss => CacheOutcome::QueryStore,
    }
}

/// The link fetched from the store for `link_id`, given its answer.
pub open spec fn store_fetch_outcome(link_id: LinkId, found: Result<Option<Link>, PersistenceError>) -> Result<Link, LinkManagerError> {
    match found {
        Err(e) => Err(LinkManagerError::PersistenceError(e)),
        Ok(None) => Err(LinkManagerError::LinkNotFound(link_id)),
        Ok(Some(link)) => Ok(link),
    }
}

/// The link fetched for `link_id` through the cache: served by the cache
/// when its key held text, else taken from the store's answer `found`.
pub open spec fn fetch_outcome(link_id: LinkId, read: CacheRead, found: Result<Option<Link>, PersistenceError>) -> Result<Link, LinkManagerError> {
    match cache_read_outcome(read) {
        CacheOutcome::Served(result) => result,
        CacheOutcome::QueryStore => store_fetch_outcome(link_id, found),
    }
}

/// The outcome of viewing the fetched `link` once the store answered the count.
pub open spec fn view_count_outcome(link: Link, counted: Result<(), PersistenceError>) -> Result<Link, LinkManagerError> {
    match counted {
        Ok(_) => Ok(link),
        Err(e) => Err(LinkManagerError::PersistenceError(e)),
    }
}

/// The outcome of a whole view of `link_id`, given the answers: of the
/// cache, of the store (asked only on a cache miss), and of the count
/// (asked only when a link was fetched).
pub open spec fn view_link_outcome(
    link_id: LinkId,
    read: CacheRead,
    found: Result<Option<Link>, PersistenceError>,
    counted: Result<(), PersistenceError>,
) -> Result<Link, LinkManagerError> {
    match fetch_outcome(link_id, read, found) {
        Err(e) => Err(e),
        Ok(link) => view_count_outcome(link, counted),
    }
}

/// The outcome of counting the views of `link_id`, given the store's answer.
pub open spec fn get_link_views_outcome(link_id: LinkId, found: Result<Option<Link>, PersistenceError>) -> Result<i64, LinkManagerError> {
    match found {
        Ok(Some(link)) => Ok(link.views),
        Ok(None) => Err(LinkManagerError::LinkNotFound(link_id)),
        Err(e) => Err(LinkManagerError::PersistenceError(e)),
    }
}

/// Why deleting `link_id` for `user_id` stops once the store answered for
/// the link (`None`: it goes on to delete it).
pub open spec fn delete_link_refusal(link_id: LinkId, user_id: i32, found: Result<Option<Link>, PersistenceError>) -> Option<LinkManagerError> {
    match found {
        Err(e) => Some(LinkManagerError::PersistenceError(e)),
        Ok(None) => Some(LinkManagerError::LinkNotFound(link_id)),
        Ok(Some(link)) => if link.user_id != user_id {
            Some(LinkManagerError::LinkNotOwnedByUser(link_id, user_id))
        } else {
            None
        },
    }
}

/// The outcome of deletion once the store answered the delete.
pub open spec fn delete_link_delete_outcome(deleted: Result<(), PersistenceError>) -> Result<(), LinkManagerError> {
    match deleted {
        Ok(_) => Ok(()),
        Err(e) => Err(LinkManagerError::PersistenceError(e)),
    }
}

/// The outcome of a whole deletion, given the store's answers: to the
/// lookup of the link, and (when the user owns it) to the delete.
pub open spec fn delete_link_outcome(
    link_id: LinkId,
    user_id: i32,
    found: Result<Option<Link>, PersistenceError>,
    deleted: Result<(), PersistenceError>,
) -> Result<(), LinkManagerError> {
    match delete_link_refusal(link_id, user_id, found) {
        Some(e) => Err(e),
        None => delete_link_delete_outcome(deleted),
    }
}

/// Counting a link's views before and after a view of it that succeeded
/// gives one more. The store is the link table `rows`, which counts a view
/// by adding one to the stored count, and answers the count with `counted`
/// (a success only when the count has room for one more: the column is a
/// 64-bit integer); the view's cache answer is `read`, its store lookup and
/// count go to `rows` at time `now`, and nothing else writes in between.
pub proof fn lemma_view_then_count(
    rows: Map<Seq<char>, Link>,
    link_id: LinkId,
    read: CacheRead,
    counted: Result<(), PersistenceError>,
    now: Timestamp,
)
    requires
        rows.contains_key(link_id.value@),
        counted is Ok ==> rows[link_id.value@].views < i64::MAX,
        view_link_outcome(link_id, read, Ok(link_by_id(rows, link_id.value@)), counted) is Ok,
    ensures
        get_link_views_outcome(link_id, Ok(link_by_id(rows, link_id.value@))) == Ok::<i64, LinkManagerError>(
            rows[link_id.value@].views,
        ),
        get_link_views_outcome(link_id, Ok(link_by_id(rows_after_view(rows, link_id.value@, now), link_id.value@)))
            == Ok::<i64, LinkManagerError>((rows[link_id.value@].views + 1) as i64),
{
}

/// Only the owner deletes a link: deletion goes on exactly when the store
/// found the link and it belongs to the requesting user, and a link found
/// under another user is refused as not owned by the requester; a whole
/// deletion succeeds only then.
pub proof fn lemma_only_owner_deletes(
    link_id: LinkId,
    user_id: i32,
    found: Result<Option<Link>, PersistenceError>,
    deleted: Result<(), PersistenceError>,
)
    ensures
        delete_link_refusal(link_id, user_id, found) is None <==> (found matches Ok(Some(link)) && link.user_id == user_id),
        (found matches Ok(Some(link)) && link.user_id != user_id) ==> delete_link_refusal(link_id, user_id, found)
            == Some(LinkManagerError::LinkNotOwnedByUser(link_id, user_id)),
        delete_link_outcome(link_id, user_id, found, deleted) is Ok ==> (found matches Ok(Some(link))
            && link.user_id == user_id && deleted is Ok),
{
}

/// A cache hit that decodes to a link serves exactly that link, whatever
/// the store would have answered; a view through such a hit, once counted,
/// answers with that same link.
pub proof fn lemma_cache_hit_serves_cached_link(
    link_id: LinkId,
    link: Link,
    found: Result<Option<Link>, PersistenceError>,
)
    ensures
        cache_read_outcome(CacheRead::Hit(Ok(link))) == CacheOutcome::Served(Ok(link)),
        fetch_outcome(link_id, CacheRead::Hit(Ok(link)), found) == Ok::<Link, LinkManagerError>(link),
        view_link_outcome(link_id, CacheRead::Hit(Ok(link)), found, Ok(())) == Ok::<Link, LinkManagerError>(link),
{
}

/// A link creation reports an id only when the store gave a fresh id and
/// the save succeeded, and then reports that id; a failed save is reported
/// as the store's failure.
pub proof fn lemma_link_created_only_when_saved(
    id: Result<LinkId, PersistenceError>,
    saved: Result<(), PersistenceError>,
)
    ensures
        create_link_outcome(id, saved) is Ok ==> (id is Ok && saved is Ok),
        id matches Ok(fresh) ==> (saved is Ok ==> create_link_outcome(id, saved) == Ok::<LinkId, LinkManagerError>(fresh)),
        saved matches Err(e) ==> (id is Ok ==> create_link_outcome(id, saved) == Err::<LinkId, LinkManagerError>(
            LinkManagerError::PersistenceError(e),
        )),
{
}

/// The view count is read from the store: it is the count of the link the
/// store found, and a link the store lacks is reported under the requested id.
pub proof fn lemma_views_read_from_store(link_id: LinkId, found: Result<Option<Link>, PersistenceError>)
    ensures
        get_link_views_outcome(link_id, found) matches Ok(v) ==> (found matches Ok(Some(link)) && link.views == v),
        found == Ok::<Option<Link>, PersistenceError>(None) ==> get_link_views_outcome(link_id, found)
            == Err::<i64, LinkManagerError>(LinkManagerError::LinkNotFound(link_id)),
{
}

/// On a cache miss the link comes from the store: the one it found, or
/// `LinkNotFound` for the requested id. A view succeeds only when its count
/// succeeded, and answers with the fetched link.
pub proof fn lemma_view_fetches_then_counts(
    link_id: LinkId,
    read: CacheRead,
    found: Result<Option<Link>, PersistenceError>,
    counted: Result<(), PersistenceError>,
)
    ensures
        fetch_outcome(link_id, CacheRead::Miss, found) matches Ok(l) ==> found == Ok::<Option<Link>, PersistenceError>(Some(l)),
        found == Ok::<Option<Link>, PersistenceError>(None) ==> fetch_outcome(link_id, CacheRead::Miss, found)
            == Err::<Link, LinkManagerError>(LinkManagerError::LinkNotFound(link_id)),
        view_link_outcome(link_id, read, found, counted) is Ok ==> counted is Ok,
        view_link_outcome(link_id, read, found, counted) matches Ok(l) ==> fetch_outcome(link_id, read, found)
            == Ok::<Link, LinkManagerError>(l),
{
}

} // verus!
