use typesafe_sdk::headers::retry_after::{retry_after_date, wait_until};
use typesafe_sdk::headers::{Headers, Value};

fn names(headers: &Headers) -> Vec<String> {
    headers.iter().into_iter().map(|(name, _)| name).collect()
}

#[test]
fn a_later_source_wins_regardless_of_casing() {
    let headers = Headers::new()
        .with("Content-Type", Value::of("text/plain"))
        .with("content-type", Value::of("application/json"));
    assert_eq!(headers.len(), 1);
    assert_eq!(headers.get("CONTENT-TYPE"), Some("application/json"));
}

#[test]
fn the_last_writer_spelling_is_what_goes_on_the_wire() {
    let headers = Headers::new()
        .with("content-type", Value::of("text/plain"))
        .with("Content-Type", Value::of("application/json"));
    assert_eq!(names(&headers), vec!["Content-Type"]);
}

#[test]
fn removal_deletes_rather_than_emptying() {
    let headers = Headers::new()
        .with("Content-Type", Value::of("application/json"))
        .with("content-type", Value::Remove);
    assert!(!headers.contains("Content-Type"));
    assert!(headers.is_empty());
}

#[test]
fn removing_an_absent_header_is_not_an_error() {
    let headers = Headers::new().with("x-absent", Value::Remove);
    assert!(headers.is_empty());
}

#[test]
fn insertion_order_is_preserved() {
    let headers = Headers::new()
        .with("a", Value::of("1"))
        .with("b", Value::of("2"))
        .with("c", Value::of("3"));
    assert_eq!(names(&headers), vec!["a", "b", "c"]);
}

#[test]
fn an_existing_header_keeps_its_place_when_reset() {
    let headers = Headers::new()
        .with("a", Value::of("1"))
        .with("b", Value::of("2"))
        .with("A", Value::of("9"))
        .with("b", Value::Remove)
        .with("c", Value::of("3"));
    assert_eq!(
        headers.iter(),
        vec![("A".to_owned(), "9".to_owned()), ("c".to_owned(), "3".to_owned())]
    );
    let copy = headers.clone();
    assert_eq!(copy.iter(), headers.iter());
    assert_eq!(headers.get("missing"), None);
}

#[test]
fn an_empty_value_is_kept_rather_than_removed() {
    let headers = Headers::new().with("x-empty", Value::of(""));
    assert!(headers.contains("X-EMPTY"));
    assert_eq!(headers.get("x-empty"), Some(""));
}

/// 2026-09-18T00:00:00Z, so the date cases have a fixed frame.
const NOW_MS: i64 = 1_789_689_600_000;

#[test]
fn an_http_date_becomes_the_remaining_wait() {
    assert_eq!(retry_after_date("Fri, 18 Sep 2026 00:00:30 GMT", NOW_MS), Some(30_000));
}

#[test]
fn a_past_date_is_zero_rather_than_negative() {
    assert_eq!(retry_after_date("Thu, 17 Sep 2026 00:00:00 GMT", NOW_MS), Some(0));
    assert_eq!(wait_until(5, 9), 0);
    assert_eq!(wait_until(9, 5), 4);
    assert_eq!(wait_until(9, -5), 14);
    assert_eq!(wait_until(i64::MAX, i64::MIN), u64::MAX);
}

#[test]
fn nonsense_is_not_a_date() {
    assert_eq!(retry_after_date("soon", NOW_MS), None);
    assert_eq!(retry_after_date("7", NOW_MS), None);
}
