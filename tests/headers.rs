use aoss_curl::headers::{all_values_valid, is_valid_value, merge_into, names_match, set_header};

fn pair(n: &str, v: &str) -> (String, String) {
    (String::from(n), String::from(v))
}

#[test]
fn names_compare_without_case() {
    assert!(names_match("Content-Type", "content-type"));
    assert!(names_match("X-AMZ-DATE", "x-amz-date"));
    assert!(!names_match("x-amz-date", "x-amz-dates"));
    assert!(!names_match("a-b", "a_b"));
    assert!(names_match("", ""));
}

#[test]
fn set_header_replaces_every_same_name() {
    let mut hs = vec![pair("Accept", "a"), pair("ACCEPT", "b"), pair("Host", "h")];
    set_header(&mut hs, "accept", "c");
    assert_eq!(hs, vec![pair("Host", "h"), pair("accept", "c")]);
}

#[test]
fn set_header_on_empty() {
    let mut hs: Vec<(String, String)> = Vec::new();
    set_header(&mut hs, "x", "1");
    assert_eq!(hs, vec![pair("x", "1")]);
}

#[test]
fn merge_applies_in_order() {
    let mut hs = vec![pair("Content-Type", "application/json"), pair("x-amz-date", "old")];
    let signed = vec![pair("x-amz-date", "new"), pair("authorization", "sig"), pair("X-Amz-Date", "newer")];
    merge_into(&mut hs, &signed);
    assert_eq!(
        hs,
        vec![pair("Content-Type", "application/json"), pair("authorization", "sig"), pair("X-Amz-Date", "newer")]
    );
}

#[test]
fn header_value_characters() {
    assert!(is_valid_value("application/json; charset=utf-8"));
    assert!(is_valid_value("a\tb ~"));
    assert!(is_valid_value(""));
    assert!(!is_valid_value("a\nb"));
    assert!(!is_valid_value("caf\u{e9}"));
    assert!(!is_valid_value("\u{7f}"));
    assert!(all_values_valid(&vec![pair("a", "b")]));
    assert!(!all_values_valid(&vec![pair("a", "b"), pair("c", "\r")]));
}
