//! The HTTP statuses of the service's answers.
use vstd::prelude::*;

verus! {

/// The status of an HTTP answer.
#[derive(Clone, Copy, Debug, PartialEq, Eq, Structural)]
pub enum Status {
    /// 200 OK.
    Success,
    BadRequest,
    Unauthorized,
    NotFound,
    InternalServerError,
}

/// The numeric code of a status.
pub open spec fn status_code(s: Status) -> u16 {
    match s {
        Status::Success => 200,
        Status::BadRequest => 400,
        Status::Unauthorized => 401,
        Status::NotFound => 404,
        Status::InternalServerError => 500,
    }
}

impl Status {
    /// The numeric code of the status.
    pub fn code(&self) -> (c: u16)
        ensures
            c == status_code(*self),
    {
        match self {
            Status::Success => 200,
        Status::BadRequest => 400,
            Status::Unauthorized => 401,
            Status::NotFound => 404,
            Status::InternalServerError => 500,
        }
    }
}

/// The numeric code of every status.
pub proof fn lemma_status_codes()
    ensures
        status_code(Status::Success) == 200,
        status_code(Status::BadRequest) == 400,
        status_code(Status::Unauthorized) == 401,
        status_code(Status::NotFound) == 404,
        status_code(Status::InternalServerError) == 500,
{
}

} // verus!
