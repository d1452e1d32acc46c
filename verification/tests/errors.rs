use typesafe_sdk::error::describe::describe;
use typesafe_sdk::error::{ApiErrorKind, Body, Error};
use typesafe_sdk::headers::{Headers, Value};
use typesafe_sdk::json::Json;

fn error_for(status: u16, raw: &str) -> Error {
    Error::from_response(status, Body::parse(raw), &Headers::new(), None)
}

#[test]
fn an_empty_body_is_empty() {
    assert_eq!(Body::parse(""), Body::Empty);
}

#[test]
fn json_is_parsed_into_the_value_it_describes() {
    assert_eq!(
        Body::parse(r#"{"a":1}"#).json(),
        Some(&Json::Object(vec![("a".to_owned(), Json::Number("1".to_owned()))]))
    );
}

#[test]
fn an_html_error_page_is_kept_verbatim() {
    assert_eq!(
        Body::parse("<h1>bad gateway</h1>"),
        Body::Text("<h1>bad gateway</h1>".to_owned())
    );
}

#[test]
fn an_authentication_failure_reads_the_nested_message() {
    let error = error_for(
        401,
        r#"{"detail":{"error_type":"authentication_error","message":"Cannot authenticate with the server. Please check your API key and try again."}}"#,
    );
    assert_eq!(
        error.message(),
        "401 Cannot authenticate with the server. Please check your API key and try again."
    );
    assert_eq!(error.api().map(|e| e.kind), Some(ApiErrorKind::Authentication));
}

#[test]
fn a_missing_key_is_permission_denied() {
    let error = error_for(
        403,
        r#"{"detail":{"error_type":"authentication_error","message":"Must supply an API key! Check your request and try again."}}"#,
    );
    assert_eq!(
        error.message(),
        "403 Must supply an API key! Check your request and try again."
    );
    assert_eq!(error.api().map(|e| e.kind), Some(ApiErrorKind::PermissionDenied));
}

#[test]
fn an_unknown_model_is_a_bad_request() {
    let error = error_for(
        400,
        r#"{"detail":{"error_type":"api_usage_error","message":"Unknown model: no-such-model"}}"#,
    );
    assert_eq!(error.message(), "400 Unknown model: no-such-model");
    assert_eq!(error.api().map(|e| e.kind), Some(ApiErrorKind::BadRequest));
}

#[test]
fn a_validation_list_is_addressed_by_location() {
    let error = error_for(
        422,
        r#"{"detail":[{"type":"list_type","loc":["body","questions","q","score","criteria"],"msg":"Input should be a valid list","input":{"0":"a"}}]}"#,
    );
    assert_eq!(
        error.message(),
        "422 questions.q.score.criteria: Input should be a valid list"
    );
}

#[test]
fn an_empty_questions_object_reports_its_own_location() {
    let error = error_for(
        422,
        r#"{"detail":[{"type":"too_short","loc":["body","questions"],"msg":"Dictionary should have at least 1 item after validation, not 0","input":{}}]}"#,
    );
    assert_eq!(
        error.message(),
        "422 questions: Dictionary should have at least 1 item after validation, not 0"
    );
}

#[test]
fn several_validation_entries_are_joined() {
    let error = error_for(
        422,
        r#"{"detail":[{"loc":["body","questions","q"],"msg":"first"},{"loc":[],"msg":"second"}]}"#,
    );
    assert_eq!(error.message(), "422 questions.q: first; second");
}

#[test]
fn an_empty_body_says_so() {
    let error = error_for(429, "");
    assert_eq!(error.message(), "429 status code (no body)");
    assert_eq!(error.api().map(|e| e.kind), Some(ApiErrorKind::RateLimit));
}

#[test]
fn an_unparseable_body_is_quoted_back() {
    let error = error_for(502, "<h1>bad gateway</h1>");
    assert_eq!(error.message(), "502 <h1>bad gateway</h1>");
    assert_eq!(error.api().map(|e| e.kind), Some(ApiErrorKind::InternalServer));
}

#[test]
fn an_unrecognised_json_body_is_quoted_as_json() {
    assert_eq!(error_for(400, r#"{"code":7}"#).message(), r#"400 {"code":7}"#);
}

#[test]
fn a_long_json_body_is_cut_at_two_hundred_characters() {
    let raw = format!(r#"{{"blob":"{}"}}"#, "x".repeat(500));
    let message = error_for(400, &raw).message();
    assert_eq!(message.chars().count(), "400 ".len() + 200 + 1);
    assert!(message.ends_with('\u{2026}'));
}

#[test]
fn a_long_text_body_is_kept_whole() {
    let raw = "x".repeat(250);
    assert_eq!(error_for(500, &raw).message().chars().count(), 4 + 250);
}

#[test]
fn an_unmapped_status_stays_unmapped() {
    assert_eq!(error_for(418, "").api().map(|e| e.kind), Some(ApiErrorKind::Other));
}

#[test]
fn a_timeout_is_also_a_connection_failure() {
    let timeout = Error::Timeout { timeout_ms: 10_000 };
    assert!(timeout.is_connection());
    assert_eq!(timeout.message(), "Request timed out after 10000ms.");
    assert!(!Error::aborted().is_connection());
    assert!(Error::aborted().is_user_abort());
}

#[test]
fn a_request_id_is_carried_through() {
    let headers = Headers::new().with("x-typesafe-request-id", Value::of("req_01a0b556"));
    let error = Error::from_response(500, Body::Empty, &headers, None);
    assert_eq!(
        error.api().and_then(|e| e.request_id.as_deref()),
        Some("req_01a0b556")
    );
}

#[test]
fn every_status_is_classified() {
    let cases = [
        (400, ApiErrorKind::BadRequest),
        (401, ApiErrorKind::Authentication),
        (403, ApiErrorKind::PermissionDenied),
        (404, ApiErrorKind::NotFound),
        (422, ApiErrorKind::UnprocessableEntity),
        (429, ApiErrorKind::RateLimit),
        (500, ApiErrorKind::InternalServer),
        (599, ApiErrorKind::InternalServer),
        (499, ApiErrorKind::Other),
        (302, ApiErrorKind::Other),
    ];
    for (status, kind) in cases {
        assert_eq!(ApiErrorKind::of(status), kind, "status {status}");
    }
}

#[test]
fn a_delay_is_reported_only_for_a_rate_limit() {
    let limited = Error::from_response(429, Body::Empty, &Headers::new(), Some(90_000));
    assert_eq!(limited.api().and_then(|e| e.retry_after_ms), Some(90_000));
    let failed = Error::from_response(503, Body::Empty, &Headers::new(), Some(90_000));
    assert_eq!(failed.api().and_then(|e| e.retry_after_ms), None);
    assert_eq!(failed.status(), Some(503));
    assert_eq!(Error::Invalid("x".to_owned()).status(), None);
}

#[test]
fn the_message_shapes_are_tried_in_order() {
    let both = r#"{"error":"first","message":"second"}"#;
    assert_eq!(error_for(400, both).message(), "400 first");
    let nested = r#"{"error":{"message":"inner"},"message":"outer"}"#;
    assert_eq!(error_for(400, nested).message(), "400 inner");
    let plain = r#"{"message":"outer","detail":"d"}"#;
    assert_eq!(error_for(400, plain).message(), "400 outer");
    let detail = r#"{"detail":"just this"}"#;
    assert_eq!(error_for(400, detail).message(), "400 just this");
    let numeric = r#"{"detail":[{"loc":["body","items",0,"text"],"msg":"bad"}]}"#;
    assert_eq!(error_for(422, numeric).message(), "422 items.0.text: bad");
    assert_eq!(error_for(400, "[1,2]").message(), "400 [1,2]");
}

#[test]
fn a_connection_failure_quotes_its_cause() {
    let error = Error::connection("reset by peer");
    assert_eq!(error.message(), "Connection error: reset by peer");
    assert!(error.is_connection());
    assert_eq!(Error::aborted().message(), "Request was aborted.");
    assert_eq!(describe(404, &Body::Empty), "404 status code (no body)");
    assert_eq!(Body::parse("not json"), Body::Text("not json".to_owned()));
}
