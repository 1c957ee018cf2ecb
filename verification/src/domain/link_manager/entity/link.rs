//! Short links and their identifiers.
use crate::time::{is_clock_reading, utc_now, Timestamp};
use vstd::prelude::*;

verus! {

/// Whether `c` is one of the 64 symbols of nanoid's URL-safe alphabet:
/// `_`, `-`, an ASCII digit, or an ASCII letter.
pub open spec fn is_url_safe_symbol(c: char) -> bool {
    ||| c == '_'
    ||| c == '-'
    ||| ('0' as u32 <= c as u32 && c as u32 <= '9' as u32)
    ||| ('a' as u32 <= c as u32 && c as u32 <= 'z' as u32)
    ||| ('A' as u32 <= c as u32 && c as u32 <= 'Z' as u32)
}

/// `s` has `size` symbols, each from the URL-safe alphabet.
pub open spec fn is_url_safe_id(s: Seq<char>, size: nat) -> bool {
    &&& s.len() == size
    &&& forall|i: int| 0 <= i < s.len() ==> is_url_safe_symbol(#[trigger] s[i])
}

/// The number of symbols in a generated link id.
pub const LINK_ID_LENGTH: usize = 4;

/// `nanoid::format` with nanoid's default random source and its URL-safe
/// alphabet (64 symbols, so every random byte yields a symbol and the call
/// returns after one batch of bytes): `size` symbols of that alphabet. With
/// `size` 0 the call would never return, so it is excluded. Which symbols
/// come out is chance, and is not stated.
#[verifier::external_body]
pub(crate) fn random_url_safe_id(size: usize) -> (id: String)
    requires
        1 <= size <= 1024,
    ensures
        is_url_safe_id(id@, size as nat),
{
    nanoid::format(nanoid::rngs::default, &nanoid::alphabet::SAFE, size)
}

/// The identifier of a short link: the text after `/view/` in its URL.
#[derive(Debug)]
pub struct LinkId {
    pub value: String,
}

impl PartialEq for LinkId {
    /// Two ids are equal when their texts are.
    fn eq(&self, other: &Self) -> (r: bool) {
        self.value == other.value
    }
}

impl Eq for LinkId {}

impl vstd::std_specs::cmp::PartialEqSpecImpl for LinkId {
    open spec fn obeys_eq_spec() -> bool {
        true
    }

    open spec fn eq_spec(&self, other: &LinkId) -> bool {
        self.value@ == other.value@
    }
}

impl Clone for LinkId {
    fn clone(&self) -> (r: Self)
        ensures
            r == *self,
    {
        LinkId { value: self.value.clone() }
    }
}

impl LinkId {
    /// A fresh random id of `LINK_ID_LENGTH` URL-safe symbols.
    pub fn generate() -> (id: Self)
        ensures
            is_url_safe_id(id.value@, LINK_ID_LENGTH as nat),
    {
        LinkId { value: random_url_safe_id(LINK_ID_LENGTH) }
    }

    /// The id whose text is `id`.
    pub fn from_string(id: String) -> (r: Self)
        ensures
            r.value == id,
    {
        LinkId { value: id }
    }

    /// The text of the id, as its `Display` writes it.
    pub fn to_string(&self) -> (s: String)
        ensures
            s@ == self.value@,
    {
        self.value.clone()
    }
}

/// A short link: where it redirects, who owns it, and how often it was viewed.
#[derive(Debug)]
pub struct Link {
    pub id: LinkId,
    pub user_id: i32,
    pub redirect_url: String,
    pub label: String,
    pub views: i64,
    pub created_at: Timestamp,
    pub last_view: Option<Timestamp>,
}

impl Clone for Link {
    fn clone(&self) -> (r: Self)
        ensures
            r == *self,
    {
        Link {
            id: self.id.clone(),
            user_id: self.user_id,
            redirect_url: self.redirect_url.clone(),
            label: self.label.clone(),
            views: self.views,
            created_at: self.created_at,
            last_view: self.last_view,
        }
    }
}

impl Link {
    /// A new link, created now: never viewed, with no last view.
    pub fn new(id: LinkId, user_id: i32, redirect_url: String, label: String) -> (link: Self)
        ensures
            link.id == id,
            link.user_id == user_id,
            link.redirect_url == redirect_url,
            link.label == label,
            link.views == 0,
            link.last_view is None,
            is_clock_reading(link.created_at),
    {
        Link {
            id,
            user_id,
            redirect_url,
            label,
            views: 0,
            created_at: utc_now(),
            last_view: None,
        }
    }

    /// The link made of exactly the given parts.
    pub fn from_parts(
        id: LinkId,
        user_id: i32,
        redirect_url: String,
        label: String,
        views: i64,
        created_at: Timestamp,
        last_view: Option<Timestamp>,
    ) -> (link: Self)
        ensures
            link == (Link { id, user_id, redirect_url, label, views, created_at, last_view }),
    {
        Link { id, user_id, redirect_url, label, views, created_at, last_view }
    }
}

} // verus!
