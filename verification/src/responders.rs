//! The health and index responders.

use vstd::prelude::*;

use crate::http::Method;
use crate::http::Response;
use crate::http::Status;

verus! {

/// What the health route answers for each method: GET and POST report
/// liveness; every other method is answered 404. The 404 (rather than 405)
/// for other methods is deliberate, observable behaviour of this route.
pub open spec fn health_status(method: Method) -> Status {
    match method {
        Method::Get => Status::Okay,
        Method::Post => Status::Okay,
        _ => Status::NotFound,
    }
}

/// Health responder: GET and POST report liveness with an empty 200;
/// anything else is answered 404 with no body.
pub fn health(method: Method) -> (r: Response)
    ensures
        r.status == health_status(method),
        r.body is None,
{
    match method {
        Method::Get => Response { status: Status::Okay, body: None },
        Method::Post => Response { status: Status::Okay, body: None },
        _ => Response { status: Status::NotFound, body: None },
    }
}

/// GET and POST to the health route always succeed, and every other method
/// is answered 404 — for all methods, not just the listed ones.
pub proof fn lemma_health_statuses()
    ensures
        health_status(Method::Get) == Status::Okay,
        health_status(Method::Post) == Status::Okay,
        forall|m: Method|
            m != Method::Get && m != Method::Post ==> #[trigger] health_status(m)
                == Status::NotFound,
{
}

/// Index responder: answers 200 with a body equal, character for character,
/// to the configured link string.
pub fn index(link: &String) -> (r: Response)
    ensures
        r.status == Status::Okay,
        r.body_view() == Some(link@),
{
    Response { status: Status::Okay, body: Some(link.clone()) }
}

} // verus!
