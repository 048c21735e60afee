use rfsspec::config::BackendKind;
use rfsspec::fetch::{
    after_attempt, classify_http, outcome_payload, outcome_payloads, Attempt, BatchCollector,
    FetchTask, Next, StreamedBody, MAX_ATTEMPTS,
};

#[test]
fn collector_keeps_input_order_whatever_completes_first() {
    let payloads: Vec<Vec<u8>> = vec![b"zero".to_vec(), b"one".to_vec(), b"two".to_vec(), b"three".to_vec()];
    for order in [[3usize, 1, 0, 2], [0, 1, 2, 3], [2, 3, 1, 0]] {
        let mut c = BatchCollector::new(4);
        assert_eq!(c.len(), 4);
        for (k, &i) in order.iter().enumerate() {
            assert!(!c.is_complete(), "complete after {} of 4", k);
            c.record(i, payloads[i].clone());
        }
        assert!(c.is_complete());
        assert_eq!(c.finish(), payloads);
    }
}

#[test]
fn empty_batch_is_complete() {
    let c = BatchCollector::new(0);
    assert!(c.is_complete());
    assert!(c.finish().is_empty());
}

#[test]
fn success_finishes_at_once() {
    match after_attempt(1, Attempt::Delivered(b"data".to_vec())) {
        Next::Finish(Ok(b)) => assert_eq!(b, b"data".to_vec()),
        _ => panic!("a delivered body must finish the request"),
    }
}

#[test]
fn backend_error_is_not_retried() {
    match after_attempt(1, Attempt::Rejected(b"<NoSuchKey/>".to_vec())) {
        Next::Finish(Err(b)) => assert_eq!(b, b"<NoSuchKey/>".to_vec()),
        _ => panic!("a backend error must finish the request"),
    }
}

#[test]
fn transport_failure_is_retried_exactly_once() {
    assert_eq!(MAX_ATTEMPTS, 2);
    assert!(matches!(after_attempt(1, Attempt::Unreachable(b"reset".to_vec())), Next::Retry));
    match after_attempt(2, Attempt::Unreachable(b"reset".to_vec())) {
        Next::Finish(Err(m)) => assert_eq!(m, b"reset".to_vec()),
        _ => panic!("the second transport failure must finish the request"),
    }
    match after_attempt(2, Attempt::Delivered(b"late".to_vec())) {
        Next::Finish(Ok(b)) => assert_eq!(b, b"late".to_vec()),
        _ => panic!("a delivered retry must finish the request"),
    }
}

#[test]
fn http_status_classification() {
    assert!(matches!(classify_http(200, vec![1]), Attempt::Delivered(_)));
    assert!(matches!(classify_http(206, vec![1]), Attempt::Delivered(_)));
    assert!(matches!(classify_http(399, vec![1]), Attempt::Delivered(_)));
    assert!(matches!(classify_http(400, vec![1]), Attempt::Rejected(_)));
    assert!(matches!(classify_http(404, vec![1]), Attempt::Rejected(_)));
    assert!(matches!(classify_http(503, vec![1]), Attempt::Rejected(_)));
}

#[test]
fn unreachable_second_url_is_isolated() {
    // Three URLs; the second cannot be reached on either attempt.
    let mut outcomes: Vec<Result<Vec<u8>, Vec<u8>>> = Vec::new();
    let first = after_attempt(1, Attempt::Delivered(b"first body".to_vec()));
    let second = match after_attempt(1, Attempt::Unreachable(b"connection refused".to_vec())) {
        Next::Retry => after_attempt(2, Attempt::Unreachable(b"connection refused".to_vec())),
        other => other,
    };
    let third = after_attempt(1, Attempt::Delivered(b"third body".to_vec()));
    for n in [first, second, third] {
        match n {
            Next::Finish(o) => outcomes.push(o),
            Next::Retry => panic!("unfinished request"),
        }
    }
    let payloads = outcome_payloads(BackendKind::Http, &outcomes);
    assert_eq!(payloads.len(), 3);
    assert_eq!(payloads[0], b"first body".to_vec());
    assert!(payloads[1].starts_with(b"HTTP ERROR: "));
    assert_eq!(payloads[1], b"HTTP ERROR: connection refused".to_vec());
    assert_eq!(payloads[2], b"third body".to_vec());
}

#[test]
fn error_payload_carries_backend_prefix() {
    let p = outcome_payload(BackendKind::S3, &Err(b"<Error>AccessDenied</Error>".to_vec()));
    assert_eq!(p, b"S3 ERROR: <Error>AccessDenied</Error>".to_vec());
    let q = outcome_payload(BackendKind::S3, &Ok(Vec::new()));
    assert!(q.is_empty());
}

#[test]
fn stream_failing_after_data_gives_only_the_error() {
    let mut body = StreamedBody::new();
    assert!(body.push(Attempt::Delivered(b"abc".to_vec())));
    assert!(!body.push(Attempt::Unreachable(b"timeout".to_vec())));
    let attempt = body.finish();
    assert!(matches!(&attempt, Attempt::Unreachable(m) if m == b"timeout"));
    let mut task = FetchTask::new(BackendKind::Azure, ());
    assert_eq!(task.on_attempt(attempt), None);
    let mut again = StreamedBody::new();
    assert!(again.push(Attempt::Delivered(b"ab".to_vec())));
    assert!(!again.push(Attempt::Unreachable(b"timeout".to_vec())));
    let payload = task.on_attempt(again.finish()).unwrap();
    assert!(payload.starts_with(b"AZURE ERROR: "));
    assert_eq!(payload, b"AZURE ERROR: timeout".to_vec());
}

#[test]
fn stream_of_data_concatenates_pieces() {
    let mut body = StreamedBody::new();
    assert!(body.push(Attempt::Delivered(b"abc".to_vec())));
    assert!(body.push(Attempt::Delivered(Vec::new())));
    assert!(body.push(Attempt::Delivered(b"def".to_vec())));
    assert!(matches!(body.finish(), Attempt::Delivered(b) if b == b"abcdef"));
    assert!(matches!(StreamedBody::new().finish(), Attempt::Delivered(b) if b.is_empty()));
}

#[test]
fn stream_rejected_by_backend_reports_at_once() {
    let mut body = StreamedBody::new();
    assert!(body.push(Attempt::Delivered(b"partial".to_vec())));
    assert!(!body.push(Attempt::Rejected(b"404 BlobNotFound".to_vec())));
    let mut task = FetchTask::new(BackendKind::Azure, ());
    let payload = task.on_attempt(body.finish()).unwrap();
    assert_eq!(payload, b"AZURE ERROR: 404 BlobNotFound".to_vec());
}

#[test]
fn azure_batch_with_failing_middle_blob() {
    let streams: Vec<Vec<Attempt>> = vec![
        vec![Attempt::Delivered(b"O1".to_vec())],
        vec![Attempt::Delivered(b"half".to_vec()), Attempt::Rejected(b"gone".to_vec())],
        vec![Attempt::Delivered(b"O3a".to_vec()), Attempt::Delivered(b"O3b".to_vec())],
    ];
    let mut collector = BatchCollector::new(3);
    for (i, pieces) in streams.into_iter().enumerate().rev() {
        let mut body = StreamedBody::new();
        for piece in pieces {
            if !body.push(piece) {
                break;
            }
        }
        let mut task = FetchTask::new(BackendKind::Azure, ());
        collector.record(i, task.on_attempt(body.finish()).unwrap());
    }
    let out = collector.finish();
    assert_eq!(out.len(), 3);
    assert_eq!(out[0], b"O1".to_vec());
    assert!(out[1].starts_with(b"AZURE ERROR: "));
    assert_eq!(out[2], b"O3aO3b".to_vec());
}

#[test]
fn task_resends_the_same_request_once() {
    let mut task = FetchTask::new(BackendKind::Http, "GET http://a".to_string());
    assert_eq!(task.on_attempt(Attempt::Unreachable(b"closing".to_vec())), None);
    assert_eq!(task.request(), "GET http://a");
    let payload = task.on_attempt(Attempt::Unreachable(b"closing".to_vec()));
    assert_eq!(payload, Some(b"HTTP ERROR: closing".to_vec()));
}

#[test]
fn task_recovers_on_retry() {
    let mut task = FetchTask::new(BackendKind::S3, 7u32);
    assert_eq!(task.on_attempt(Attempt::Unreachable(b"reset".to_vec())), None);
    assert_eq!(task.on_attempt(Attempt::Delivered(b"body".to_vec())), Some(b"body".to_vec()));
}

#[test]
fn task_reports_backend_error_at_once() {
    let mut task = FetchTask::new(BackendKind::S3, ());
    let payload = task.on_attempt(Attempt::Rejected(b"<NoSuchKey/>".to_vec()));
    assert_eq!(payload, Some(b"S3 ERROR: <NoSuchKey/>".to_vec()));
}
