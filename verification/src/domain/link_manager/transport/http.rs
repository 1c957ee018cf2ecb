//! The answers of the link routes.
use crate::domain::link_manager::entity::link::{Link, LinkId};
use crate::domain::link_manager::service::LinkManagerError;
use crate::transport::http::status::Status;
use vstd::prelude::*;

verus! {

/// The body of a link creation request.
#[derive(Debug)]
pub struct CreateLinkRequest {
    pub redirected_url: String,
    pub label: String,
}

/// The status with which reading a link fails: not found when there is no
/// such link, else a server error.
pub open spec fn link_error_status(e: LinkManagerError) -> Status {
    match e {
        LinkManagerError::LinkNotFound(_) => Status::NotFound,
        _ => Status::InternalServerError,
    }
}

/// A successful answer that sends the client on to `location`.
#[derive(Debug)]
pub struct RedirectAnswer {
    pub status: Status,
    pub location: String,
}

/// Given the outcome of viewing a link: the OK answer sending the client to
/// the link's target, or the failure status.
pub fn view_link_get_handler_reply(result: Result<Link, LinkManagerError>) -> (reply: Result<RedirectAnswer, Status>)
    ensures
        match result {
            Ok(link) => reply == Ok::<RedirectAnswer, Status>(
                RedirectAnswer { status: Status::Success, location: link.redirect_url },
            ),
            Err(e) => reply == Err::<RedirectAnswer, Status>(link_error_status(e)),
        },
        result matches Err(LinkManagerError::LinkNotFound(_)) ==> reply == Err::<RedirectAnswer, Status>(Status::NotFound),
        reply is Ok ==> result is Ok,
{
    match result {
        Ok(link) => Ok(RedirectAnswer { status: Status::Success, location: link.redirect_url }),
        Err(LinkManagerError::LinkNotFound(_)) => Err(Status::NotFound),
        Err(_) => Err(Status::InternalServerError),
    }
}

/// Given the outcome of counting a link's views: the count, or the failure status.
pub fn get_link_views_get_handler_reply(result: Result<i64, LinkManagerError>) -> (reply: Result<i64, Status>)
    ensures
        match result {
            Ok(views) => reply == Ok::<i64, Status>(views),
            Err(e) => reply == Err::<i64, Status>(link_error_status(e)),
        },
        result matches Err(LinkManagerError::LinkNotFound(_)) ==> reply == Err::<i64, Status>(Status::NotFound),
        reply is Ok ==> result is Ok,
{
    match result {
        Ok(views) => Ok(views),
        Err(LinkManagerError::LinkNotFound(_)) => Err(Status::NotFound),
        Err(_) => Err(Status::InternalServerError),
    }
}

/// Given the outcome of creating a link: its id, or a server error for any failure.
pub fn create_link_post_handler_reply(result: Result<LinkId, LinkManagerError>) -> (reply: Result<LinkId, Status>)
    ensures
        match result {
            Ok(id) => reply == Ok::<LinkId, Status>(id),
            Err(_) => reply == Err::<LinkId, Status>(Status::InternalServerError),
        },
{
    match result {
        Ok(id) => Ok(id),
        Err(_) => Err(Status::InternalServerError),
    }
}

/// Given the outcome of deleting a link: `true`, or a server error for any failure.
pub fn delete_link_delete_handler_reply(result: Result<(), LinkManagerError>) -> (reply: Result<bool, Status>)
    ensures
        match result {
            Ok(_) => reply == Ok::<bool, Status>(true),
            Err(_) => reply == Err::<bool, Status>(Status::InternalServerError),
        },
{
    match result {
        Ok(_) => Ok(true),
        Err(_) => Err(Status::InternalServerError),
    }
}

/// Both link-reading routes answer a missing link with "not found" and
/// every other failure with a server error.
pub proof fn lemma_link_error_status(link_id: LinkId, e: LinkManagerError)
    ensures
        link_error_status(LinkManagerError::LinkNotFound(link_id)) == Status::NotFound,
        !(e is LinkNotFound) ==> link_error_status(e) == Status::InternalServerError,
{
}

} // verus!
