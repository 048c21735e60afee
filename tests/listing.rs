use rfsspec::listing::{info_outcome, ListPage, ListedObject, Listing};

fn page(keys: &[(&str, i64)], next: Option<&str>) -> ListPage {
    ListPage {
        objects: keys.iter().map(|(k, s)| ListedObject { key: k.to_string(), size: *s }).collect(),
        next_token: next.map(|t| t.to_string()),
    }
}

#[test]
fn three_pages_flatten_in_page_order() {
    let pages = vec![
        page(&[("pre/a", 1), ("pre/b", 2)], Some("t1")),
        page(&[("pre/c", 3)], Some("t2")),
        page(&[("pre/d", 4), ("pre/e", 5)], None),
    ];
    let mut listing = Listing::start("bkt/pre", true);
    let mut tokens_sent = Vec::new();
    for p in pages {
        let req = listing.next_request().expect("listing ended early");
        assert_eq!(req.bucket, "bkt");
        assert_eq!(req.prefix, "pre");
        assert!(req.requester_pays);
        tokens_sent.push(req.token);
        listing.accept_page(Some(p));
    }
    assert!(listing.is_finished());
    assert!(listing.next_request().is_none());
    assert_eq!(tokens_sent, vec![None, Some("t1".to_string()), Some("t2".to_string())]);
    let names: Vec<(String, i64)> = listing.into_entries().into_iter().map(|e| (e.name, e.size)).collect();
    assert_eq!(
        names,
        vec![
            ("bkt/pre/a".to_string(), 1),
            ("bkt/pre/b".to_string(), 2),
            ("bkt/pre/c".to_string(), 3),
            ("bkt/pre/d".to_string(), 4),
            ("bkt/pre/e".to_string(), 5),
        ]
    );
}

#[test]
fn failed_page_ends_the_listing() {
    let mut listing = Listing::start("bkt/pre", false);
    listing.accept_page(Some(page(&[("pre/a", 1)], Some("t1"))));
    assert!(!listing.is_finished());
    listing.accept_page(None);
    assert!(listing.is_finished());
    let entries = listing.into_entries();
    assert_eq!(entries.len(), 1);
    assert_eq!(entries[0].name, "bkt/pre/a");
}

#[test]
fn first_page_failure_lists_nothing() {
    let mut listing = Listing::start("bkt/", false);
    assert_eq!(listing.next_request().unwrap().prefix, "");
    listing.accept_page(None);
    assert!(listing.into_entries().is_empty());
}

#[test]
fn bad_path_lists_nothing() {
    let listing = Listing::start("bucket-only", false);
    assert!(listing.is_finished());
    assert!(listing.next_request().is_none());
    assert!(listing.into_entries().is_empty());
}

#[test]
fn empty_last_page() {
    let mut listing = Listing::start("bkt/x", false);
    listing.accept_page(Some(page(&[], None)));
    assert!(listing.is_finished());
    assert!(listing.into_entries().is_empty());
}

#[test]
fn lookup_outcomes() {
    assert_eq!(info_outcome(Ok(1234)), Ok(1234));
    assert_eq!(info_outcome(Err("NotFound".to_string())), Err("S3 ERROR: NotFound".to_string()));
}
