use std::sync::Arc;

use typesafe_sdk::answers::missing_answer;
use typesafe_sdk::cmd::doctor::diagnose;
use typesafe_sdk::env::Fixed;
use typesafe_sdk::log::Silent;
use typesafe_sdk::models::wrong_shape;

#[test]
fn a_configured_environment_diagnoses_clean() {
    let env = Fixed::new(&[
        ("TYPESAFE_API_KEY", "sk_live_0123456789abcdef"),
        ("TYPESAFE_BASE_URL", "https://env.test/"),
    ]);
    let d = diagnose(&env, Arc::new(Silent));
    assert!(d.authenticated);
    assert_eq!(d.api_key.as_deref(), Some("***cdef"));
    assert_eq!(d.base_url, "https://env.test");
    assert_eq!(d.default_model, "jev-latest");
    assert_eq!(d.timeout_ms, 10_000);
    assert!(d.problems.is_empty());
    let set: Vec<(String, bool)> = d.environment.iter().map(|v| (v.name.clone(), v.set)).collect();
    assert_eq!(
        set,
        vec![
            ("TYPESAFE_API_KEY".to_owned(), true),
            ("TYPESAFE_BASE_URL".to_owned(), true),
            ("TYPESAFE_DEFAULT_MODEL".to_owned(), false),
            ("TYPESAFE_LOG_LEVEL".to_owned(), false),
        ]
    );
}

#[test]
fn a_missing_key_is_the_problem_reported() {
    let d = diagnose(&Fixed::new(&[("TYPESAFE_API_KEY", "  ")]), Arc::new(Silent));
    assert!(!d.authenticated);
    assert_eq!(d.api_key, None);
    assert_eq!(d.base_url, "https://api.typesafe.ai");
    assert_eq!(d.timeout_ms, 0);
    assert_eq!(d.problems.len(), 1);
    assert!(d.problems[0].starts_with("No API key was provided."));
    assert!(!d.environment[0].set);
}

#[test]
fn a_missing_answer_names_what_did_come_back() {
    let asked = vec!["category".to_owned(), "urgency".to_owned(), "angry".to_owned()];
    assert_eq!(
        missing_answer("nonexistent", &asked).message(),
        "No answer named \"nonexistent\" in the response; got: category, urgency, angry."
    );
    assert_eq!(
        wrong_shape().message(),
        "Unexpected response shape from GET /v1/models; expected { models: [...] }."
    );
}
