use upload_service::admission::admit_upload;
use upload_service::admission::Admission;
use upload_service::admission::BodyEvent;
use upload_service::admission::DrainStep;
use upload_service::http::Method;
use upload_service::http::Status;

#[test]
fn within_limit_is_admitted() {
    let chunks = vec![vec![1u8, 2, 3], vec![4u8, 5], vec![6u8]];
    let resp = admit_upload(Method::Post, 6, &chunks, false);
    assert_eq!(resp.status.code(), 200);
    assert!(resp.body.is_none());
}

#[test]
fn empty_body_is_admitted() {
    let chunks: Vec<Vec<u8>> = vec![];
    let resp = admit_upload(Method::Post, 0, &chunks, false);
    assert_eq!(resp.status.code(), 200);
}

#[test]
fn oversized_rejected_regardless_of_content() {
    let zeros = vec![vec![0u8; 7]];
    let text = vec![b"abc".to_vec(), b"defg".to_vec()];
    assert_eq!(admit_upload(Method::Post, 6, &zeros, false).status.code(), 413);
    assert_eq!(admit_upload(Method::Post, 6, &text, false).status.code(), 413);
    assert_eq!(admit_upload(Method::Post, 6, &text, true).status.code(), 413);
}

#[test]
fn boundary_is_exact() {
    let limit: usize = 5;
    let at_limit = vec![vec![9u8; limit]];
    let past_limit = vec![vec![9u8; limit + 1]];
    assert_eq!(admit_upload(Method::Post, limit, &at_limit, false).status.code(), 200);
    assert_eq!(admit_upload(Method::Post, limit, &past_limit, false).status.code(), 413);
}

#[test]
fn truncated_body_is_bad_request() {
    let chunks = vec![vec![1u8, 2]];
    let resp = admit_upload(Method::Post, 10, &chunks, true);
    assert_eq!(resp.status.code(), 400);
}

#[test]
fn non_post_methods_not_allowed() {
    let chunks: Vec<Vec<u8>> = vec![];
    for method in [Method::Get, Method::Put, Method::Other] {
        let resp = admit_upload(method, 10, &chunks, false);
        assert_eq!(resp.status.code(), 405);
    }
}

#[test]
fn independent_uploads_all_admitted() {
    let limit: usize = 16;
    let bodies = [
        vec![vec![1u8; 16]],
        vec![vec![2u8; 8], vec![3u8; 8]],
        vec![],
        vec![vec![4u8; 1]],
    ];
    for chunks in &bodies {
        assert_eq!(admit_upload(Method::Post, limit, chunks, false).status.code(), 200);
    }
}

#[test]
fn drain_events_decide_each_step() {
    let mut state = Admission::new(3);
    assert!(matches!(state.on_event(BodyEvent::Chunk(vec![1, 2])), DrainStep::Continue));
    match state.on_event(BodyEvent::Chunk(vec![3, 4])) {
        DrainStep::Respond(r) => assert_eq!(r.status.code(), 413),
        DrainStep::Continue => panic!("a chunk past the limit must be refused"),
    }
    // the refused chunk was not counted: one more byte still fits
    assert!(matches!(state.on_event(BodyEvent::Chunk(vec![5])), DrainStep::Continue));
    match state.on_event(BodyEvent::Done) {
        DrainStep::Respond(r) => assert_eq!(r.status.code(), 200),
        DrainStep::Continue => panic!("a completed body must be answered"),
    }
    let mut failed = Admission::new(3);
    match failed.on_event(BodyEvent::Failed) {
        DrainStep::Respond(r) => assert_eq!(r.status.code(), 400),
        DrainStep::Continue => panic!("a failed read must be answered"),
    }
}

#[test]
fn streaming_state_fails_fast() {
    let mut state = Admission::new(4);
    assert!(state.accept_chunk(3));
    assert_eq!(state.consumed, 3);
    assert!(!state.accept_chunk(2));
    assert_eq!(state.consumed, 3);
    assert!(state.accept_chunk(1));
    assert_eq!(state.consumed, 4);
}
