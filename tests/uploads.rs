use rfsspec::upload::plan_puts;

#[test]
fn puts_are_planned_per_item() {
    let paths = vec!["bkt/a".to_string(), "nobucket".to_string(), "bkt/dir/b".to_string()];
    let plan = plan_puts(&paths);
    assert_eq!(plan.len(), 3);
    match &plan[0] {
        Ok(p) => assert_eq!((p.container.as_str(), p.key.as_str()), ("bkt", "a")),
        Err(m) => panic!("unexpected error {}", m),
    }
    match &plan[1] {
        Err(m) => assert_eq!(m, "S3 ERROR: bad path"),
        Ok(_) => panic!("path without slash accepted"),
    }
    match &plan[2] {
        Ok(p) => assert_eq!((p.container.as_str(), p.key.as_str()), ("bkt", "dir/b")),
        Err(m) => panic!("unexpected error {}", m),
    }
}
