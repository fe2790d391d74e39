//! The HTTP statuses the handlers answer with.

use vstd::prelude::*;

verus! {

/// One of the four statuses the services use.
#[derive(Clone, Copy, Debug, PartialEq, Eq, Structural)]
pub enum Status {
    /// 200: the request was carried out.
    Success,
    /// 201: a record was created.
    Created,
    /// 400: the request was malformed.
    BadRequest,
    /// 404: the record asked for does not exist.
    NotFound,
}

impl Status {
    /// The numeric status code.
    pub open spec fn spec_code(self) -> u16 {
        match self {
            Status::Success => 200,
            Status::Created => 201,
            Status::BadRequest => 400,
            Status::NotFound => 404,
        }
    }

    /// The numeric status code.
    #[verifier::when_used_as_spec(spec_code)]
    pub fn code(self) -> (code: u16)
        ensures
            code == self.spec_code(),
    {
        match self {
            Status::Success => 200,
            Status::Created => 201,
            Status::BadRequest => 400,
            Status::NotFound => 404,
        }
    }
}

} // verus!
