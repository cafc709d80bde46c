//! The request and response vocabulary of the service.

use vstd::prelude::*;

verus! {

/// The request methods the service tells apart. Everything beyond GET, POST
/// and PUT is classified the same way, so it is collapsed into one variant.
#[derive(Clone, Copy, Debug, PartialEq, Eq, Structural)]
pub enum Method {
    Get,
    Post,
    Put,
    Other,
}

/// The status codes the service can answer with.
#[derive(Clone, Copy, Debug, PartialEq, Eq, Structural)]
pub enum Status {
    Okay,
    BadRequest,
    NotFound,
    MethodNotAllowed,
    PayloadTooLarge,
}

impl Status {
    /// The numeric HTTP status code of this status.
    pub open spec fn spec_code(self) -> u16 {
        match self {
            Status::Okay => 200,
            Status::BadRequest => 400,
            Status::NotFound => 404,
            Status::MethodNotAllowed => 405,
            Status::PayloadTooLarge => 413,
        }
    }

    /// The numeric HTTP status code of this status.
    pub fn code(self) -> (c: u16)
        ensures
            c == self.spec_code(),
    {
        match self {
            Status::Okay => 200,
            Status::BadRequest => 400,
            Status::NotFound => 404,
            Status::MethodNotAllowed => 405,
            Status::PayloadTooLarge => 413,
        }
    }
}

/// A response: a status code and an optional body. The service never sends
/// a body except on the index route.
#[derive(Debug)]
pub struct Response {
    pub status: Status,
    pub body: Option<String>,
}

impl Response {
    /// The body as a sequence of characters, if one is present.
    pub open spec fn body_view(self) -> Option<Seq<char>> {
        match self.body {
            Some(s) => Some(s@),
            None => None,
        }
    }
}

} // verus!
