use crane_webserver::{decode_target, Query};

#[test]
fn single_pair() {
    let (path, query) = decode_target("/get/data?a=b").unwrap();
    assert_eq!(path, "/get/data");
    assert_eq!(query.get("a").unwrap(), &vec!["b".to_string()]);
    assert_eq!(query.len(), 1);
}

#[test]
fn repeated_key_accumulates_in_order() {
    let (path, query) = decode_target("/get/data?a=b&a=c").unwrap();
    assert_eq!(path, "/get/data");
    assert_eq!(
        query.get("a").unwrap(),
        &vec!["b".to_string(), "c".to_string()]
    );
    assert_eq!(query.len(), 1);
}

#[test]
fn no_question_mark_yields_empty_query() {
    let (path, query) = decode_target("/get/data").unwrap();
    assert_eq!(path, "/get/data");
    assert_eq!(query.len(), 0);
    assert!(query.get("a").is_none());
}

#[test]
fn percent_escapes_and_plus_are_decoded() {
    let (path, query) = decode_target("/p?x=a+b%21&y=%C3%A9").unwrap();
    assert_eq!(path, "/p");
    assert_eq!(query.get("x").unwrap(), &vec!["a b!".to_string()]);
    assert_eq!(query.get("y").unwrap(), &vec!["\u{e9}".to_string()]);
}

#[test]
fn several_keys_keep_first_seen_order() {
    let (_, query) = decode_target("/q?b=1&a=2&b=3").unwrap();
    let entries = query.entries();
    assert_eq!(entries.len(), 2);
    assert_eq!(entries[0].0, "b");
    assert_eq!(entries[0].1, vec!["1".to_string(), "3".to_string()]);
    assert_eq!(entries[1].0, "a");
    assert_eq!(entries[1].1, vec!["2".to_string()]);
}

#[test]
fn from_pairs_folds_in_encounter_order() {
    let pairs = vec![
        ("k".to_string(), "1".to_string()),
        ("m".to_string(), "x".to_string()),
        ("k".to_string(), "2".to_string()),
    ];
    let query = Query::from_pairs(pairs);
    assert_eq!(query.len(), 2);
    assert_eq!(
        query.get("k").unwrap(),
        &vec!["1".to_string(), "2".to_string()]
    );
    assert_eq!(query.get("m").unwrap(), &vec!["x".to_string()]);
    assert!(query.get("absent").is_none());
}
