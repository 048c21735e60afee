use rfsspec::multipart::{flatten_text, text_outcome, MultipartSession, PartTable};

fn owned(list: &[(i32, &str)]) -> Vec<(i32, String)> {
    list.iter().map(|(p, e)| (*p, e.to_string())).collect()
}

#[test]
fn second_upload_of_a_part_wins() {
    let mut t = PartTable::new();
    t.record(1, "\"etag-1a\"".to_string());
    t.record(2, "\"etag-2\"".to_string());
    t.record(1, "\"etag-1b\"".to_string());
    assert_eq!(t.manifest(), owned(&[(1, "\"etag-1b\""), (2, "\"etag-2\"")]));
}

#[test]
fn manifest_is_in_part_order() {
    let mut t = PartTable::new();
    for (p, e) in [(3, "c"), (1, "a"), (10, "j"), (2, "b"), (-1, "m")] {
        t.record(p, e.to_string());
    }
    assert_eq!(t.manifest(), owned(&[(-1, "m"), (1, "a"), (2, "b"), (3, "c"), (10, "j")]));
}

#[test]
fn manifest_names_exactly_the_uploaded_parts() {
    let returned = owned(&[(2, "x2"), (1, "x1"), (3, "x3"), (2, "y2")]);
    let t = PartTable::from_pairs(&returned);
    assert_eq!(t.manifest(), owned(&[(1, "x1"), (2, "y2"), (3, "x3")]));
    let omitted = PartTable::from_pairs(&owned(&[(1, "x1"), (3, "x3")]));
    assert_eq!(omitted.manifest(), owned(&[(1, "x1"), (3, "x3")]));
}

#[test]
fn empty_table_has_empty_manifest() {
    assert!(PartTable::new().manifest().is_empty());
    assert!(PartTable::from_pairs(&Vec::new()).manifest().is_empty());
}

#[test]
fn upload_id_outcomes() {
    assert_eq!(text_outcome(Ok(Some("abc".to_string())), "upload id"), Ok("abc".to_string()));
    assert_eq!(
        text_outcome(Ok(None), "upload id"),
        Err("S3 ERROR: missing upload id".to_string())
    );
    assert_eq!(
        text_outcome(Err("AccessDenied".to_string()), "eTag"),
        Err("S3 ERROR: AccessDenied".to_string())
    );
}

#[test]
fn flattened_results() {
    assert_eq!(flatten_text(Ok("id".to_string())), "id");
    assert_eq!(flatten_text(Err("S3 ERROR: bad path".to_string())), "S3 ERROR: bad path");
}

fn target() -> rfsspec::path::ObjectPath {
    rfsspec::path::parse_object_path("bkt/big/object.bin").unwrap()
}

#[test]
fn session_runs_init_upload_complete() {
    let mut s = MultipartSession::begin(target(), Ok(Some("upl-1".to_string()))).unwrap();
    {
        let (t, id) = s.destination();
        assert_eq!((t.container.as_str(), t.key.as_str(), id), ("bkt", "big/object.bin", "upl-1"));
    }
    s.record_part(2, "e2".to_string());
    s.record_part(1, "e1".to_string());
    s.record_part(2, "e2b".to_string());
    let (t, id, manifest) = s.complete();
    assert_eq!(t.key, "big/object.bin");
    assert_eq!(id, "upl-1");
    assert_eq!(manifest, owned(&[(1, "e1"), (2, "e2b")]));
}

#[test]
fn session_that_cannot_start() {
    match MultipartSession::begin(target(), Ok(None)) {
        Err(m) => assert_eq!(m, "S3 ERROR: missing upload id"),
        Ok(_) => panic!("session without upload id"),
    }
    match MultipartSession::begin(target(), Err("NoSuchBucket".to_string())) {
        Err(m) => assert_eq!(m, "S3 ERROR: NoSuchBucket"),
        Ok(_) => panic!("session from a failed call"),
    }
}

#[test]
fn session_abort_hands_back_upload() {
    let mut s = MultipartSession::begin(target(), Ok(Some("upl-2".to_string()))).unwrap();
    s.record_part(1, "e1".to_string());
    let (t, id) = s.abort();
    assert_eq!((t.container.as_str(), id.as_str()), ("bkt", "upl-2"));
}
