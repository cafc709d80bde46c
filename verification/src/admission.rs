//! The payload admission policy: the one piece of the service with design
//! substance. Given the configured maximum payload size and an upload
//! request's method and body, it decides whether to accept (200), reject for
//! size (413), reject for a transport failure (400), or reject for method
//! (405). The body is consumed chunk by chunk and never retained, and
//! consumption is aborted the moment the running total passes the limit.

use vstd::prelude::*;

use crate::http::Method;
use crate::http::Response;
use crate::http::Status;

verus! {

/// Total number of bytes across a sequence of body chunks.
pub open spec fn total_len(chunks: Seq<Seq<u8>>) -> int
    decreases chunks.len(),
{
    if chunks.len() == 0 {
        0
    } else {
        total_len(chunks.drop_last()) + chunks.last().len()
    }
}

/// Taking one more chunk adds exactly that chunk's length to the total.
pub proof fn lemma_total_len_take_succ(chunks: Seq<Seq<u8>>, i: int)
    requires
        0 <= i < chunks.len(),
    ensures
        total_len(chunks.take(i + 1)) == total_len(chunks.take(i)) + chunks[i].len(),
{
    assert(chunks.take(i + 1).drop_last() =~= chunks.take(i));
    assert(chunks.take(i + 1).last() == chunks[i]);
}

/// A prefix of a body never holds more bytes than the whole body, so a
/// limit crossed mid-stream is also crossed by the complete body.
pub proof fn lemma_total_len_prefix_le(chunks: Seq<Seq<u8>>, i: int)
    requires
        0 <= i <= chunks.len(),
    ensures
        total_len(chunks.take(i)) <= total_len(chunks),
    decreases chunks.len() - i,
{
    if i == chunks.len() {
        assert(chunks.take(i) =~= chunks);
    } else {
        lemma_total_len_take_succ(chunks, i);
        lemma_total_len_prefix_le(chunks, i + 1);
    }
}

/// The status owed for a POST upload body: too large wins over a transport
/// failure, which wins over success. A body is too large exactly when its
/// byte total exceeds the limit; an incomplete body within the limit is a
/// transport error; a complete body within the limit is accepted.
pub open spec fn upload_status(limit: int, total: int, truncated: bool) -> Status {
    if total > limit {
        Status::PayloadTooLarge
    } else if truncated {
        Status::BadRequest
    } else {
        Status::Okay
    }
}

/// The full admission decision: only POST may upload; a POST body is judged
/// by its byte total against the limit and by whether it arrived complete.
pub open spec fn admission_status(
    method: Method,
    limit: int,
    chunks: Seq<Seq<u8>>,
    truncated: bool,
) -> Status {
    if method != Method::Post {
        Status::MethodNotAllowed
    } else {
        upload_status(limit, total_len(chunks), truncated)
    }
}

/// The running state of one upload being drained: the configured limit and
/// the bytes consumed so far. Consumed bytes never pass the limit; a chunk
/// that would push past it is refused before it is counted.
pub struct Admission {
    pub limit: usize,
    pub consumed: usize,
}

impl Admission {
    /// The state invariant: consumption stays within the limit.
    pub open spec fn wf(self) -> bool {
        self.consumed <= self.limit
    }

    /// Fresh state for one upload under the given limit.
    pub fn new(limit: usize) -> (state: Admission)
        ensures
            state.wf(),
            state.limit == limit,
            state.consumed == 0,
    {
        Admission { limit, consumed: 0 }
    }

    /// Counts one body chunk of the given length. Returns true and counts
    /// the chunk when it fits within the limit; returns false and leaves the
    /// state unchanged when it would push past the limit, so the caller can
    /// abort the drain at once.
    pub fn accept_chunk(&mut self, len: usize) -> (fits: bool)
        requires
            old(self).wf(),
        ensures
            final(self).wf(),
            final(self).limit == old(self).limit,
            fits <==> old(self).consumed + len <= old(self).limit,
            fits ==> final(self).consumed == old(self).consumed + len,
            !fits ==> final(self).consumed == old(self).consumed,
    {
        if len <= self.limit - self.consumed {
            self.consumed = self.consumed + len;
            true
        } else {
            false
        }
    }
}

/// One transport event while an upload body is being drained: a chunk of
/// body bytes arrived, the body ended, or the read failed mid-body.
pub enum BodyEvent {
    Chunk(Vec<u8>),
    Done,
    Failed,
}

/// What the service does after one body event: keep draining, or answer at
/// once with the given response.
pub enum DrainStep {
    Continue,
    Respond(Response),
}

impl Admission {
    /// The drain decision for one event. A chunk within the limit is
    /// consumed and dropped at once, nothing retained; a chunk that pushes
    /// past the limit answers 413 immediately, aborting the drain; a body
    /// that ends within the limit is owed 200; a failed read answers 400.
    /// The unverified transport loop feeds events in and performs the steps.
    pub fn on_event(&mut self, event: BodyEvent) -> (step: DrainStep)
        requires
            old(self).wf(),
        ensures
            final(self).wf(),
            final(self).limit == old(self).limit,
            (match event {
                BodyEvent::Chunk(c) => if old(self).consumed + c@.len() <= old(self).limit {
                    step is Continue && final(self).consumed == old(self).consumed + c@.len()
                } else {
                    (step matches DrainStep::Respond(r) && r.status == Status::PayloadTooLarge
                        && r.body is None) && final(self).consumed == old(self).consumed
                },
                BodyEvent::Done => step matches DrainStep::Respond(r) && r.status == Status::Okay
                    && r.body is None,
                BodyEvent::Failed => step matches DrainStep::Respond(r) && r.status
                    == Status::BadRequest && r.body is None,
            }),
            !(event is Chunk) ==> final(self).consumed == old(self).consumed,
    {
        match event {
            BodyEvent::Chunk(chunk) => {
                if self.accept_chunk(chunk.len()) {
                    DrainStep::Continue
                } else {
                    DrainStep::Respond(
                        Response { status: Status::PayloadTooLarge, body: None },
                    )
                }
            },
            BodyEvent::Done => DrainStep::Respond(
                Response { status: Status::Okay, body: None },
            ),
            BodyEvent::Failed => DrainStep::Respond(
                Response { status: Status::BadRequest, body: None },
            ),
        }
    }
}

/// The admission decision for an upload request whose body arrives as the
/// given chunks; `truncated` says whether the transport failed before the
/// body was complete. The chunks are drained in order and dropped, nothing
/// is retained, and draining stops the moment the running total passes the
/// limit, so a transport failure beyond that point is never reached.
pub fn admit_upload(method: Method, limit: usize, chunks: &Vec<Vec<u8>>, truncated: bool) -> (r:
    Response)
    ensures
        r.status == admission_status(method, limit as int, chunks.deep_view(), truncated),
        r.body is None,
{
    if method != Method::Post {
        return Response { status: Status::MethodNotAllowed, body: None };
    }
    let mut state = Admission::new(limit);
    let n = chunks.len();
    let mut i: usize = 0;
    while i < n
        invariant
            method == Method::Post,
            i <= n,
            n == chunks@.len(),
            state.wf(),
            state.limit == limit,
            state.consumed == total_len(chunks.deep_view().take(i as int)),
        decreases n - i,
    {
        let len = chunks[i].len();
        proof {
            lemma_total_len_take_succ(chunks.deep_view(), i as int);
            assert(chunks.deep_view()[i as int] == chunks@[i as int]@);
        }
        if !state.accept_chunk(len) {
            proof {
                lemma_total_len_prefix_le(chunks.deep_view(), i as int + 1);
            }
            return Response { status: Status::PayloadTooLarge, body: None };
        }
        i = i + 1;
    }
    proof {
        assert(chunks.deep_view().take(n as int) =~= chunks.deep_view());
    }
    if truncated {
        Response { status: Status::BadRequest, body: None }
    } else {
        Response { status: Status::Okay, body: None }
    }
}

/// Every POST upload whose body arrives complete and totals at most the
/// limit is admitted with 200.
pub proof fn lemma_within_limit_admitted(limit: int, chunks: Seq<Seq<u8>>)
    requires
        total_len(chunks) <= limit,
    ensures
        admission_status(Method::Post, limit, chunks, false) == Status::Okay,
{
}

/// Every upload whose body totals more than the limit is rejected with 413,
/// whatever bytes the body holds and whether or not it arrived complete.
pub proof fn lemma_oversized_rejected(limit: int, chunks: Seq<Seq<u8>>, truncated: bool)
    requires
        total_len(chunks) > limit,
    ensures
        admission_status(Method::Post, limit, chunks, truncated) == Status::PayloadTooLarge,
{
}

/// The boundary is exact: a complete body of exactly the limit is admitted,
/// and a body of one byte more is rejected.
pub proof fn lemma_limit_boundary(limit: int, at_limit: Seq<Seq<u8>>, past_limit: Seq<Seq<u8>>)
    requires
        total_len(at_limit) == limit,
        total_len(past_limit) == limit + 1,
    ensures
        admission_status(Method::Post, limit, at_limit, false) == Status::Okay,
        admission_status(Method::Post, limit, past_limit, false) == Status::PayloadTooLarge,
{
}

/// Simultaneous uploads cannot interfere: the admission decision is a
/// function of the request's own method and body and the shared read-only
/// limit alone, so each one of any number of in-limit uploads is admitted,
/// irrespective of what the others carry.
pub proof fn lemma_uploads_independent(limit: int)
    ensures
        forall|chunks: Seq<Seq<u8>>|
            total_len(chunks) <= limit ==> #[trigger] admission_status(
                Method::Post,
                limit,
                chunks,
                false,
            ) == Status::Okay,
{
}

} // verus!
