use std::sync::Arc;

use typesafe_sdk::config::{Builder, Config, DEFAULT_BASE_URL, DEFAULT_MODEL};
use typesafe_sdk::env::Fixed;
use typesafe_sdk::log::{Level, Silent};
use typesafe_sdk::retry::RetryPolicy;

fn built(env: &[(&str, &str)]) -> Config<Silent> {
    Builder::new().build(&Fixed::new(env), Arc::new(Silent)).unwrap()
}

fn refusal(builder: Builder<Silent>, env: &[(&str, &str)]) -> String {
    builder
        .build(&Fixed::new(env), Arc::new(Silent))
        .err()
        .unwrap()
        .message()
}

#[test]
fn the_defaults_apply_when_only_a_key_is_present() {
    let config = built(&[("TYPESAFE_API_KEY", "sk_live_x")]);
    assert_eq!(config.base_url, DEFAULT_BASE_URL);
    assert_eq!(config.default_model, DEFAULT_MODEL);
    assert_eq!(config.timeout_ms, 10_000);
    assert_eq!(config.log_level(), Level::Warn);
    assert_eq!(config.retry, RetryPolicy::default());
}

#[test]
fn every_setting_can_come_from_the_environment() {
    let config = built(&[
        ("TYPESAFE_API_KEY", "sk_live_x"),
        ("TYPESAFE_BASE_URL", "https://env.test"),
        ("TYPESAFE_DEFAULT_MODEL", "jev-preview"),
        ("TYPESAFE_LOG_LEVEL", "debug"),
    ]);
    assert_eq!(config.base_url, "https://env.test");
    assert_eq!(config.default_model, "jev-preview");
    assert_eq!(config.log_level(), Level::Debug);
}

#[test]
fn an_explicit_setting_beats_the_environment() {
    let env = Fixed::new(&[
        ("TYPESAFE_API_KEY", "from_env"),
        ("TYPESAFE_BASE_URL", "https://env.test"),
    ]);
    let config = Builder::new()
        .api_key("from_code")
        .base_url("https://code.test")
        .build(&env, Arc::new(Silent))
        .unwrap();
    assert_eq!(config.base_url, "https://code.test");
    assert_eq!(config.authorization(), "Bearer from_code");
}

#[test]
fn trailing_slashes_are_stripped_from_either_source() {
    let from_env = built(&[
        ("TYPESAFE_API_KEY", "k"),
        ("TYPESAFE_BASE_URL", "https://env.test///"),
    ]);
    assert_eq!(from_env.base_url, "https://env.test");

    let from_code = Builder::new()
        .api_key("k")
        .base_url("https://code.test//")
        .build(&Fixed::default(), Arc::new(Silent))
        .unwrap();
    assert_eq!(from_code.base_url, "https://code.test");
}

#[test]
fn a_missing_key_names_the_environment_variable() {
    let message = refusal(Builder::new(), &[]);
    assert!(message.contains("TYPESAFE_API_KEY"), "{message}");
    assert!(message.starts_with("No API key was provided."), "{message}");
}

#[test]
fn a_blank_key_in_the_environment_counts_as_missing() {
    let message = refusal(Builder::new(), &[("TYPESAFE_API_KEY", "   ")]);
    assert!(message.starts_with("No API key was provided."), "{message}");
}

#[test]
fn an_invalid_log_level_names_its_source() {
    let message = refusal(Builder::new().api_key("k"), &[("TYPESAFE_LOG_LEVEL", "chatty")]);
    assert_eq!(
        message,
        "Invalid log level \"chatty\" from TYPESAFE_LOG_LEVEL. \
         Expected one of: debug, info, warn, error, off."
    );
}

#[test]
fn a_zero_timeout_is_refused() {
    let message = refusal(Builder::new().api_key("k").timeout_ms(0), &[]);
    assert_eq!(message, "`timeout` must be a positive number of milliseconds, got 0.");
}

#[test]
fn the_key_never_appears_in_debug_output() {
    let config = Builder::new()
        .api_key("sk_live_0123456789abcdef")
        .build(&Fixed::default(), Arc::new(Silent))
        .unwrap();
    let rendered = config.debug_text();
    assert!(!rendered.contains("sk_live"), "{rendered}");
    assert!(!rendered.contains("0123456789"), "{rendered}");
    assert!(rendered.contains("***cdef"), "{rendered}");
    assert_eq!(config.key_hint(), "***cdef");
    assert_eq!(
        rendered,
        "Config { base_url: \"https://api.typesafe.ai\", default_model: \"jev-latest\", \
         timeout_ms: 10000, api_key: \"***cdef\", .. }"
    );
}

#[test]
fn a_short_key_reveals_nothing_in_its_hint() {
    let config = Builder::new()
        .api_key("short")
        .build(&Fixed::default(), Arc::new(Silent))
        .unwrap();
    assert_eq!(config.key_hint(), "***");
}

#[test]
fn an_explicit_level_wins_even_over_a_bad_environment_value() {
    let config = Builder::new()
        .api_key("k")
        .log_level(Level::Info)
        .build(&Fixed::new(&[("TYPESAFE_LOG_LEVEL", "chatty")]), Arc::new(Silent))
        .unwrap();
    assert_eq!(config.log_level(), Level::Info);
}

#[test]
fn a_missing_key_is_reported_before_a_zero_timeout() {
    let message = refusal(Builder::new().timeout_ms(0), &[("TYPESAFE_LOG_LEVEL", "chatty")]);
    assert!(message.starts_with("No API key was provided."), "{message}");
}

#[test]
fn explicit_settings_and_headers_are_kept() {
    let policy = RetryPolicy { max_retries: 5, backoff_initial_ms: 1, backoff_max_ms: 2 };
    let config = Builder::new()
        .api_key("k")
        .default_model("jev-preview")
        .timeout_ms(1234)
        .retry(policy)
        .header("X-Team", "platform")
        .build(&Fixed::new(&[("TYPESAFE_DEFAULT_MODEL", "other")]), Arc::new(Silent))
        .unwrap();
    assert_eq!(config.default_model, "jev-preview");
    assert_eq!(config.timeout_ms, 1234);
    assert_eq!(config.retry, policy);
    assert_eq!(config.default_headers.get("x-team"), Some("platform"));
}
