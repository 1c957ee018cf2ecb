//! Links as the account side keeps them: a target value and a view history.
use crate::domain::auth::entity::user::UserId;
use crate::domain::link_manager::entity::link::{is_url_safe_id, random_url_safe_id, LINK_ID_LENGTH};
use crate::time::{is_clock_reading, utc_now, Timestamp};
use vstd::prelude::*;

verus! {

/// The identifier of an account link.
#[derive(Debug)]
pub struct LinkId {
    pub value: String,
}

impl PartialEq for LinkId {
    /// Two ids are equal when their texts are.
    fn eq(&self, other: &Self) -> (r: bool) {
        self.value == other.value
    }
}

impl Eq for LinkId {}

impl vstd::std_specs::cmp::PartialEqSpecImpl for LinkId {
    open spec fn obeys_eq_spec() -> bool {
        true
    }

    open spec fn eq_spec(&self, other: &LinkId) -> bool {
        self.value@ == other.value@
    }
}

impl Clone for LinkId {
    fn clone(&self) -> (r: Self)
        ensures
            r == *self,
    {
        LinkId { value: self.value.clone() }
    }
}

impl Default for LinkId {
    /// The id with empty text.
    fn default() -> (r: Self)
        ensures
            r.value@ == Seq::<char>::empty(),
    {
        LinkId { value: String::new() }
    }
}

impl LinkId {
    /// A fresh random id of `LINK_ID_LENGTH` URL-safe symbols.
    pub fn generate() -> (id: Self)
        ensures
            is_url_safe_id(id.value@, LINK_ID_LENGTH as nat),
    {
        LinkId { value: random_url_safe_id(LINK_ID_LENGTH) }
    }

    /// The text of the id, as its `Display` writes it.
    pub fn to_string(&self) -> (s: String)
        ensures
            s@ == self.value@,
    {
        self.value.clone()
    }
}

/// A link kept for an account, with its view count and the time of its last view.
#[derive(Debug)]
pub struct Link {
    pub id: LinkId,
    pub user_id: UserId,
    pub value: String,
    pub views: i64,
    pub created_at: Timestamp,
    pub last_view: Option<Timestamp>,
}

impl Link {
    /// A new link, created now: never viewed.
    pub fn new(id: LinkId, user_id: UserId, value: String) -> (link: Self)
        ensures
            link.id == id,
            link.user_id == user_id,
            link.value == value,
            link.views == 0,
            link.last_view is None,
            is_clock_reading(link.created_at),
    {
        Link { id, user_id, value, views: 0, created_at: utc_now(), last_view: None }
    }

    /// Records one more view, made now. The count must have room for it
    /// (an overflow would panic).
    pub fn increment_views(&mut self)
        requires
            old(self).views < i64::MAX,
        ensures
            final(self).views == old(self).views + 1,
            final(self).last_view matches Some(t) && is_clock_reading(t),
            final(self).id == old(self).id,
            final(self).user_id == old(self).user_id,
            final(self).value == old(self).value,
            final(self).created_at == old(self).created_at,
    {
        self.views = self.views + 1;
        self.last_view = Some(utc_now());
    }
}

} // verus!
