//! Service composition: the route table, and what one request is answered
//! under a given configuration.

use vstd::prelude::*;

use crate::admission::admission_status;
use crate::admission::admit_upload;
use crate::config::Config;
use crate::http::Method;
use crate::http::Response;
use crate::http::Status;
use crate::responders::health;
use crate::responders::health_status;
use crate::responders::index;

verus! {

/// The routes the service knows. Requests for any other path never reach
/// the library: the transport answers them 404 itself.
#[derive(Clone, Copy, Debug, PartialEq, Eq, Structural)]
pub enum Route {
    Index,
    Health,
    Upload,
}

/// One request as the service sees it once the transport has handed it
/// over: the matched route, the method, the body chunks that arrived, and
/// whether the transport failed before the body was complete. Only the
/// upload route reads the body.
pub struct Request {
    pub route: Route,
    pub method: Method,
    pub chunks: Vec<Vec<u8>>,
    pub truncated: bool,
}

/// The status the service owes for one request. The index route exists only
/// when enabled and answers only GET (405 otherwise, the route being
/// present); health answers by method alone; upload answers by the payload
/// admission policy.
pub open spec fn serve_status(
    cfg: Config,
    route: Route,
    method: Method,
    chunks: Seq<Seq<u8>>,
    truncated: bool,
) -> Status {
    match route {
        Route::Index => if !cfg.index_enabled {
            Status::NotFound
        } else if method == Method::Get {
            Status::Okay
        } else {
            Status::MethodNotAllowed
        },
        Route::Health => health_status(method),
        Route::Upload => admission_status(method, cfg.max_payload_size as int, chunks, truncated),
    }
}

/// The body the service owes for one request: only a GET on the enabled
/// index route carries one, and it is exactly the configured link string.
pub open spec fn serve_body(cfg: Config, route: Route, method: Method) -> Option<Seq<char>> {
    if route == Route::Index && cfg.index_enabled && method == Method::Get {
        Some(cfg.repo_link.unwrap()@)
    } else {
        None
    }
}

/// Serves one request under the given configuration: the whole visible
/// behaviour of the service, status and body, for every route and method.
pub fn serve(cfg: &Config, req: &Request) -> (r: Response)
    requires
        cfg.wf(),
    ensures
        r.status == serve_status(
            *cfg,
            req.route,
            req.method,
            req.chunks.deep_view(),
            req.truncated,
        ),
        r.body_view() == serve_body(*cfg, req.route, req.method),
{
    match req.route {
        Route::Index => {
            if !cfg.index_enabled {
                Response { status: Status::NotFound, body: None }
            } else if req.method == Method::Get {
                match &cfg.repo_link {
                    Some(link) => index(link),
                    // dead: a well-formed configuration with the index route
                    // enabled always carries the link
                    None => Response { status: Status::NotFound, body: None },
                }
            } else {
                Response { status: Status::MethodNotAllowed, body: None }
            }
        },
        Route::Health => health(req.method),
        Route::Upload => admit_upload(
            req.method,
            cfg.max_payload_size,
            &req.chunks,
            req.truncated,
        ),
    }
}

/// A GET on the enabled index route always answers 200, with a body equal,
/// character for character, to the configured link string — whatever body
/// bytes the transport may have passed along.
pub proof fn lemma_index_serves_link(cfg: Config, chunks: Seq<Seq<u8>>, truncated: bool)
    requires
        cfg.wf(),
        cfg.index_enabled,
    ensures
        serve_status(cfg, Route::Index, Method::Get, chunks, truncated) == Status::Okay,
        serve_body(cfg, Route::Index, Method::Get) == Some(cfg.repo_link.unwrap()@),
{
}

/// Repeating a request yields the same status and body every time: the
/// answer is a function of the configuration and the request alone, and the
/// service carries no state from one request to the next.
pub proof fn lemma_repeat_same_answer(cfg: Config, first: Request, second: Request)
    requires
        first.route == second.route,
        first.method == second.method,
        first.chunks.deep_view() == second.chunks.deep_view(),
        first.truncated == second.truncated,
    ensures
        serve_status(cfg, first.route, first.method, first.chunks.deep_view(), first.truncated)
            == serve_status(
            cfg,
            second.route,
            second.method,
            second.chunks.deep_view(),
            second.truncated,
        ),
        serve_body(cfg, first.route, first.method) == serve_body(
            cfg,
            second.route,
            second.method,
        ),
{
}

} // verus!
