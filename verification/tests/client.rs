use std::sync::Arc;

use typesafe_sdk::client::attempt::{classify, Attempts, Outcome};
use typesafe_sdk::client::headers::{agent, assemble};
use typesafe_sdk::client::send::{effective_policy, Plan};
use typesafe_sdk::client::{RequestOptions, Responded, VERSION};
use typesafe_sdk::client::options::responded;
use typesafe_sdk::config::{Builder, Config};
use typesafe_sdk::env::Fixed;
use typesafe_sdk::error::Error;
use typesafe_sdk::headers::{Headers, Value};
use typesafe_sdk::http::{Exchange, Method, Mock, RawResponse};
use typesafe_sdk::log::Silent;
use typesafe_sdk::retry::RetryPolicy;

const RUNTIME: &str = "rust/test";

fn config_with(configure: impl FnOnce(Builder<Silent>) -> Builder<Silent>) -> Config<Silent> {
    configure(Builder::new().api_key("sk_live_0123456789abcdef"))
        .build(&Fixed::default(), Arc::new(Silent))
        .unwrap()
}

fn fast_retry(max_retries: u32) -> RetryPolicy {
    RetryPolicy { max_retries, backoff_initial_ms: 1, backoff_max_ms: 1 }
}

fn response(status: u16) -> RawResponse {
    RawResponse { status, headers: Headers::new(), body: String::new() }
}

#[test]
fn a_get_carries_the_sdk_headers_and_no_content_type() {
    let config = config_with(|b| b);
    let sent = assemble(&config, &Headers::new(), false, 0, RUNTIME);
    assert_eq!(sent.get("authorization"), Some("Bearer sk_live_0123456789abcdef"));
    assert_eq!(sent.get("accept"), Some("application/json"));
    let agent_name = format!("typesafe-sdk/{VERSION}");
    assert_eq!(sent.get("user-agent"), Some(agent_name.as_str()));
    assert_eq!(sent.get("x-typesafe-sdk"), Some(agent_name.as_str()));
    assert_eq!(sent.get("x-typesafe-runtime"), Some(RUNTIME));
    assert_eq!(sent.get("content-type"), None, "a GET has no body");
    assert_eq!(sent.get("x-typesafe-retry-count"), None);
    let plan = Plan::of(&config, Method::Get, "/v1/models", None, &RequestOptions::new());
    assert_eq!(plan.url, "https://api.typesafe.ai/v1/models");
    assert_eq!(agent(), agent_name);
}

#[test]
fn a_post_declares_json() {
    let config = config_with(|b| b);
    let plan = Plan::of(&config, Method::Post, "/v1/systemone", Some("{}".to_owned()), &RequestOptions::new());
    let request = plan.request(&config, &RequestOptions::new(), 0, RUNTIME);
    assert_eq!(request.headers.get("content-type"), Some("application/json"));
    assert_eq!(request.url, "https://api.typesafe.ai/v1/systemone");
    assert_eq!(request.body.as_deref(), Some("{}"));
}

#[test]
fn a_caller_cannot_clobber_the_sdk_headers() {
    let config = config_with(|b| {
        b.header("AUTHORIZATION", "Bearer stolen")
            .header("User-Agent", "not-the-sdk")
            .header("x-typesafe-retry-count", "99")
            .header("X-Team", "platform")
    });
    let sent = assemble(&config, &Headers::new(), false, 0, RUNTIME);
    assert_eq!(sent.get("authorization"), Some("Bearer sk_live_0123456789abcdef"));
    assert_eq!(sent.get("user-agent"), Some(format!("typesafe-sdk/{VERSION}").as_str()));
    assert_eq!(sent.get("x-typesafe-retry-count"), None);
    assert_eq!(sent.get("x-team"), Some("platform"), "own headers survive");
}

#[test]
fn only_one_authorization_header_reaches_the_wire() {
    let config = config_with(|b| b.header("authorization", "Bearer a"));
    let sent = assemble(&config, &Headers::new(), false, 0, RUNTIME);
    let count = sent
        .iter()
        .iter()
        .filter(|(name, _)| name.eq_ignore_ascii_case("authorization"))
        .count();
    assert_eq!(count, 1);
}

#[test]
fn the_retry_count_header_appears_only_on_retries() {
    let config = config_with(|b| b);
    let counts: Vec<Option<String>> = (0..3)
        .map(|attempt| {
            assemble(&config, &Headers::new(), false, attempt, RUNTIME)
                .get("x-typesafe-retry-count")
                .map(str::to_owned)
        })
        .collect();
    assert_eq!(counts, vec![None, Some("1".to_owned()), Some("2".to_owned())]);
}

#[test]
fn a_per_call_header_is_merged_beneath_the_sdk_headers() {
    let config = Builder::new()
        .api_key("k")
        .build(&Fixed::default(), Arc::new(Silent))
        .unwrap();
    let options = RequestOptions::new()
        .header("X-Trace", "abc123")
        .header("authorization", "Bearer stolen");
    let plan = Plan::of(&config, Method::Get, "/v1/models", None, &options);
    let request = plan.request(&config, &options, 0, RUNTIME);
    assert_eq!(request.headers.get("x-trace"), Some("abc123"));
    assert_eq!(request.headers.get("authorization"), Some("Bearer k"));
}

#[test]
fn a_per_call_timeout_and_policy_win_for_that_call_only() {
    let config = config_with(|b| b.retry(fast_retry(5)));
    let options = RequestOptions::new().timeout_ms(1234).retry(fast_retry(0));
    let plan = Plan::of(&config, Method::Get, "/v1/models", None, &options);
    assert_eq!(plan.timeout_ms, 1234);
    assert_eq!(plan.policy.max_retries, 0);
    assert_eq!(config.retry.max_retries, 5);
    assert_eq!(effective_policy(&config, &RequestOptions::new()).max_retries, 5);
    let default_plan = Plan::of(&config, Method::Get, "/v1/models", None, &RequestOptions::new());
    assert_eq!(default_plan.timeout_ms, 10_000);
}

#[test]
fn a_non_retryable_status_is_not_retried_however_many_are_allowed() {
    let outcome = classify(&fast_retry(5), 0, Ok(response(400)), None);
    match outcome {
        Outcome::Done(Err(error)) => assert_eq!(error.status(), Some(400)),
        other => panic!("expected a final failure, got {other:?}"),
    }
}

#[test]
fn retries_stop_once_the_budget_is_spent() {
    let mut run = Attempts::start(fast_retry(2));
    let mut made = 0;
    let last = loop {
        made += 1;
        match run.record(Ok(response(503)), None) {
            Outcome::Again { .. } => continue,
            Outcome::Done(result) => break result,
        }
    };
    assert_eq!(made, 3, "one attempt plus two retries");
    assert_eq!(last.unwrap_err().status(), Some(503));
}

#[test]
fn success_ends_the_request_and_failures_say_why_they_retry() {
    let policy = RetryPolicy::default();
    assert!(matches!(classify(&policy, 0, Ok(response(204)), None), Outcome::Done(Ok(_))));
    match classify(&policy, 0, Ok(response(503)), None) {
        Outcome::Again { delay, reason } => {
            assert_eq!(delay, 500);
            assert_eq!(reason, "503");
        },
        other => panic!("expected a retry, got {other:?}"),
    }
    match classify(&policy, 1, Err(Error::Timeout { timeout_ms: 10 }), None) {
        Outcome::Again { delay, reason } => {
            assert_eq!(delay, 1_000);
            assert_eq!(reason, "Request timed out after 10ms.");
        },
        other => panic!("expected a retry, got {other:?}"),
    }
    assert!(matches!(classify(&policy, 0, Err(Error::aborted()), None), Outcome::Done(Err(_))));
}

#[test]
fn a_rate_limit_waits_as_long_as_the_server_asks_up_to_a_minute() {
    let policy = RetryPolicy::default();
    match classify(&policy, 0, Ok(response(429)), Some(7_000)) {
        Outcome::Again { delay, .. } => assert_eq!(delay, 7_000),
        other => panic!("expected a retry, got {other:?}"),
    }
    match classify(&policy, 3, Ok(response(429)), Some(120_000)) {
        Outcome::Done(Err(error)) => {
            assert_eq!(error.api().and_then(|a| a.retry_after_ms), Some(120_000));
        },
        other => panic!("expected a final failure, got {other:?}"),
    }
    assert_eq!(policy.delay_ms(0, Some(120_000)), 500);
    assert_eq!(policy.delay_ms(3, None), 4_000);
    assert_eq!(policy.delay_ms(10, None), 5_000);
}

#[test]
fn the_request_id_is_reachable_on_success() {
    let answer = RawResponse {
        status: 200,
        headers: Headers::new().with("x-typesafe-request-id", Value::of("req_abc")),
        body: String::new(),
    };
    let result: Responded<u8> = responded(&answer, 7);
    assert_eq!(result.request_id.as_deref(), Some("req_abc"));
    assert_eq!(result.status, 200);
    assert_eq!(result.into_data(), 7);
    assert_eq!(responded(&response(200), ()).request_id, None);
}

#[test]
fn the_mock_answers_in_order_and_records_what_it_was_sent() {
    let config = config_with(|b| b);
    let plan = Plan::of(&config, Method::Get, "/v1/models", None, &RequestOptions::new());
    let mut mock = Mock::new(vec![
        Exchange::status(503, "").with_header("retry-after", "1"),
        Exchange::ok("{\"models\":[]}"),
        Exchange::Fail(Error::connection("reset")),
    ]);
    let first = mock.send(plan.request(&config, &RequestOptions::new(), 0, RUNTIME)).unwrap();
    assert_eq!(first.status, 503);
    assert_eq!(first.headers.get("Retry-After"), Some("1"));
    let second = mock.send(plan.request(&config, &RequestOptions::new(), 1, RUNTIME)).unwrap();
    assert_eq!(second.body, "{\"models\":[]}");
    assert!(mock.send(plan.request(&config, &RequestOptions::new(), 2, RUNTIME)).unwrap_err().is_connection());
    let spent = mock.send(plan.request(&config, &RequestOptions::new(), 3, RUNTIME));
    assert_eq!(spent.unwrap_err().message(), "the mock transport ran out of answers");
    assert_eq!(mock.attempts(), 4);
    let seen = mock.requests();
    assert_eq!(seen[1].headers.get("x-typesafe-retry-count"), Some("1"));
    assert_eq!(seen[0].url, "https://api.typesafe.ai/v1/models");
}

#[test]
fn log_lines_name_the_call() {
    let config = config_with(|b| b);
    let plan = Plan::of(&config, Method::Get, "/v1/models", None, &RequestOptions::new());
    assert_eq!(plan.request_line(), "GET /v1/models -> https://api.typesafe.ai/v1/models");
    assert_eq!(plan.response_line(200), "GET /v1/models <- 200");
    assert_eq!(plan.retry_line(0, 500, "503"), "GET /v1/models retrying in 500ms (retry 1/2) after 503");
    assert_eq!(Method::Post.name(), "POST");
}

#[test]
fn the_default_backoff_doubles_from_half_a_second_to_the_cap() {
    let policy = RetryPolicy::default();
    let waits: Vec<u64> = (0..6).map(|attempt| policy.backoff_ms(attempt)).collect();
    assert_eq!(waits, vec![500, 1_000, 2_000, 4_000, 5_000, 5_000]);
    assert_eq!(policy.delay_ms(2, Some(60_000)), 60_000);
    assert_eq!(policy.delay_ms(2, Some(60_001)), 2_000);
}
