use rfsspec::fetch::plan_ranges;
use rfsspec::range::range_header_value;
use rfsspec::request::{plan_http_fetch, set_header};
use rfsspec::text::decimal_string;

fn pairs(list: &[(&str, &str)]) -> Vec<(String, String)> {
    list.iter().map(|(n, v)| (n.to_string(), v.to_string())).collect()
}

#[test]
fn range_ten_to_twenty_denotes_ten_bytes() {
    let v = range_header_value(10, 20).unwrap();
    assert_eq!(v, "bytes=10-19");
}

#[test]
fn whole_object_has_no_range() {
    assert_eq!(range_header_value(0, 0), None);
}

#[test]
fn range_from_zero() {
    assert_eq!(range_header_value(0, 1).unwrap(), "bytes=0-0");
    assert_eq!(range_header_value(0, 100).unwrap(), "bytes=0-99");
}

#[test]
fn decimal_edges() {
    assert_eq!(decimal_string(0), "0");
    assert_eq!(decimal_string(7), "7");
    assert_eq!(decimal_string(10), "10");
    assert_eq!(decimal_string(u64::MAX), "18446744073709551615");
}

#[test]
fn whole_object_request_keeps_headers() {
    let headers = pairs(&[("Accept", "*/*"), ("X-Token", "t")]);
    let req = plan_http_fetch("http://host/obj", 0, 0, &headers, None).unwrap();
    assert_eq!(req.url, "http://host/obj");
    assert_eq!(req.method, "GET");
    assert_eq!(req.headers, headers);
    assert!(req.headers.iter().all(|(n, _)| n != "Range"));
}

#[test]
fn ranged_request_sets_range_header() {
    let headers = pairs(&[("Accept", "*/*")]);
    let req = plan_http_fetch("http://host/obj", 10, 20, &headers, Some("POST")).unwrap();
    assert_eq!(req.method, "POST");
    assert_eq!(req.headers, pairs(&[("Accept", "*/*"), ("Range", "bytes=10-19")]));
}

#[test]
fn ranged_request_replaces_callers_range() {
    let headers = pairs(&[("Range", "bytes=0-1"), ("Accept", "*/*")]);
    let req = plan_http_fetch("http://host/obj", 5, 6, &headers, None).unwrap();
    assert_eq!(req.headers, pairs(&[("Accept", "*/*"), ("Range", "bytes=5-5")]));
}

#[test]
fn set_header_appends_new_name() {
    let out = set_header(&pairs(&[("a", "1")]), "b", "2".to_string());
    assert_eq!(out, pairs(&[("a", "1"), ("b", "2")]));
}

#[test]
fn starts_without_ends_fetch_nothing() {
    let urls = vec!["http://a".to_string(), "http://b".to_string()];
    let plan = plan_ranges(&urls, Some(vec![5]), None);
    assert!(plan.is_empty());
}

#[test]
fn ends_without_starts_fetch_nothing() {
    let urls = vec!["http://a".to_string()];
    let plan = plan_ranges(&urls, None, Some(vec![9]));
    assert!(plan.is_empty());
}

#[test]
fn no_ranges_fetch_every_object_whole() {
    let urls = vec!["http://a".to_string(), "http://b".to_string(), "http://c".to_string()];
    let plan = plan_ranges(&urls, None, None);
    assert_eq!(plan.len(), 3);
    for (i, r) in plan.iter().enumerate() {
        assert_eq!(r.location, urls[i]);
        assert_eq!((r.start, r.end), (0, 0));
    }
}

#[test]
fn ranges_pair_up_in_order() {
    let urls = vec!["http://a".to_string(), "http://b".to_string(), "http://c".to_string()];
    let plan = plan_ranges(&urls, Some(vec![1, 2]), Some(vec![10, 20, 30]));
    assert_eq!(plan.len(), 2);
    assert_eq!((plan[0].location.as_str(), plan[0].start, plan[0].end), ("http://a", 1, 10));
    assert_eq!((plan[1].location.as_str(), plan[1].start, plan[1].end), ("http://b", 2, 20));
}

#[test]
fn empty_batch_plans_nothing() {
    let urls: Vec<String> = Vec::new();
    assert!(plan_ranges(&urls, None, None).is_empty());
    assert!(plan_ranges(&urls, Some(vec![]), Some(vec![])).is_empty());
}

#[test]
fn window_without_end_is_an_item_error() {
    match plan_http_fetch("http://host/obj", 5, 0, &Vec::new(), None) {
        Err(e) => assert_eq!(e, b"HTTP ERROR: bad range".to_vec()),
        Ok(_) => panic!("window [5, 0) accepted"),
    }
}
