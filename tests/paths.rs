use rfsspec::config::BackendKind;
use rfsspec::errors::{bad_path_bytes, error_bytes, error_message};
use rfsspec::path::{object_target, parse_object_path};

#[test]
fn path_splits_on_first_slash() {
    let p = parse_object_path("bucket/dir/file.bin").unwrap();
    assert_eq!(p.container, "bucket");
    assert_eq!(p.key, "dir/file.bin");
}

#[test]
fn path_without_slash_is_malformed() {
    assert!(parse_object_path("bucket").is_none());
    assert!(parse_object_path("").is_none());
}

#[test]
fn path_with_leading_slash_has_empty_container() {
    let p = parse_object_path("/key").unwrap();
    assert_eq!(p.container, "");
    assert_eq!(p.key, "key");
}

#[test]
fn path_with_non_ascii_text() {
    let p = parse_object_path("bück/é/x").unwrap();
    assert_eq!(p.container, "bück");
    assert_eq!(p.key, "é/x");
}

#[test]
fn malformed_path_message_has_prefix() {
    match object_target(BackendKind::S3, "nobucket") {
        Err(m) => assert_eq!(m, "S3 ERROR: bad path"),
        Ok(_) => panic!("path without slash accepted"),
    }
}

#[test]
fn error_prefixes_per_backend() {
    assert_eq!(error_message(BackendKind::Http, "x"), "HTTP ERROR: x");
    assert_eq!(error_message(BackendKind::S3, "x"), "S3 ERROR: x");
    assert_eq!(error_message(BackendKind::Gcs, "x"), "HTTP ERROR: x");
    assert_eq!(error_message(BackendKind::Azure, "x"), "AZURE ERROR: x");
    assert_eq!(error_bytes(BackendKind::S3, b"<Error/>"), b"S3 ERROR: <Error/>".to_vec());
    assert_eq!(bad_path_bytes(BackendKind::Azure), b"AZURE ERROR: bad path".to_vec());
}
