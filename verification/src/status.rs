//! The status codes this service answers with.

use vstd::prelude::*;

verus! {

/// The status of a reply.
#[derive(Clone, Copy, Debug, PartialEq, Eq, Structural)]
pub enum Status {
    /// The request was served.
    Success,
    /// The caller did not identify itself.
    Unauthorized,
    /// The caller is known and not allowed in.
    Forbidden,
    /// No route matches the path.
    NotFound,
    /// A route matches the path, but not with this method.
    MethodNotAllowed,
}

impl Status {
    /// The numeric HTTP code of a status.
    pub open spec fn spec_code(self) -> u16 {
        match self {
            Status::Success => 200,
            Status::Unauthorized => 401,
            Status::Forbidden => 403,
            Status::NotFound => 404,
            Status::MethodNotAllowed => 405,
        }
    }

    /// The numeric HTTP code of this status.
    pub fn code(self) -> (code: u16)
        ensures
            code == self.spec_code(),
    {
        match self {
            Status::Success => 200,
            Status::Unauthorized => 401,
            Status::Forbidden => 403,
            Status::NotFound => 404,
            Status::MethodNotAllowed => 405,
        }
    }

    /// Whether this status reports success.
    pub fn is_success(self) -> (yes: bool)
        ensures
            yes == (self == Status::Success),
    {
        matches!(self, Status::Success)
    }
}

} // verus!
