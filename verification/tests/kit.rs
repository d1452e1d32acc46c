use typesafe_sdk::cmd::asking::{shorthand, Shorthand, SHORTHAND};
use typesafe_sdk::answers::Usage as ResponseUsage;
use typesafe_sdk::cmd::kit::{
    code_for, items_of, kept_items, lines_of, question_source, require_text, retryable, stdin_lines,
    QuestionSource, Usage,
};
use typesafe_sdk::error::{Body, Error};
use typesafe_sdk::headers::Headers;

fn api(status: u16) -> Error {
    Error::from_response(status, Body::Empty, &Headers::new(), None)
}

#[test]
fn every_status_maps_to_a_stable_code() {
    let cases = [
        (400, "BAD_REQUEST"),
        (401, "AUTHENTICATION_ERROR"),
        (403, "PERMISSION_DENIED"),
        (404, "NOT_FOUND"),
        (422, "UNPROCESSABLE_ENTITY"),
        (429, "RATE_LIMIT"),
        (503, "INTERNAL_SERVER_ERROR"),
        (418, "API_ERROR"),
    ];
    for (status, expected) in cases {
        assert_eq!(code_for(&api(status)), expected, "status {status}");
    }
}

#[test]
fn local_failures_have_their_own_codes() {
    assert_eq!(code_for(&Error::Invalid("bad".to_owned())), "VALIDATION_ERROR");
    assert_eq!(code_for(&Error::Timeout { timeout_ms: 1 }), "TIMEOUT");
    assert_eq!(code_for(&Error::connection("reset")), "CONNECTION_ERROR");
    assert_eq!(code_for(&Error::aborted()), "CANCELLED");
}

#[test]
fn only_transient_failures_are_worth_repeating() {
    assert!(retryable(&api(429)));
    assert!(retryable(&api(503)));
    assert!(retryable(&Error::Timeout { timeout_ms: 1 }));
    assert!(!retryable(&api(400)));
    assert!(!retryable(&api(401)));
    assert!(!retryable(&Error::Invalid("bad".to_owned())));
    assert!(!retryable(&Error::aborted()));
}

#[test]
fn usage_adds_without_wrapping() {
    let mut total = Usage::default();
    total.add(&ResponseUsage { input_tokens: 10, output_tokens: 1 });
    total.add(&ResponseUsage { input_tokens: 5, output_tokens: 2 });
    assert_eq!((total.input_tokens, total.output_tokens), (15, 3));
    total.add(&ResponseUsage { input_tokens: u64::MAX, output_tokens: 0 });
    assert_eq!(total.input_tokens, u64::MAX);
    let one = Usage::from_response(&ResponseUsage { input_tokens: 358, output_tokens: 70 });
    assert_eq!((one.input_tokens, one.output_tokens), (358, 70));
}

#[test]
fn lines_are_trimmed_and_blank_ones_dropped() {
    let items = lines_of("  first \r\n\n second\n\t\nthird").unwrap();
    assert_eq!(items, vec!["first", "second", "third"]);
    let message = lines_of(" \n \r\n").unwrap_err().message();
    assert_eq!(message, "standard input held no items; pass one per line");
    assert!(lines_of("").is_err());
}

#[test]
fn blank_standard_input_is_refused() {
    assert_eq!(
        require_text(" \n".to_owned()).unwrap_err().message(),
        "standard input was empty; `-` means read the text from stdin"
    );
    assert_eq!(require_text(" a ".to_owned()).unwrap(), " a ");
}

#[test]
fn an_items_file_keeps_items_as_written() {
    let kept = kept_items(vec![" a ".to_owned(), "  ".to_owned(), "b\nc".to_owned()]).unwrap();
    assert_eq!(kept, vec![" a ", "b\nc"]);
    assert_eq!(
        kept_items(vec!["".to_owned()]).unwrap_err().message(),
        "`--items-file` held no items"
    );
}

#[test]
fn questions_come_from_one_flag_at_most() {
    assert_eq!(
        question_source(Some("{}"), Some("q.json")).unwrap_err().message(),
        "pass either --questions or --questions-file, not both"
    );
    let inline = question_source(Some("{}"), None).unwrap().unwrap();
    assert_eq!(inline, QuestionSource::Inline("{}".to_owned()));
    assert_eq!(inline.flag(), "--questions");
    let file = question_source(None, Some("q.json")).unwrap().unwrap();
    assert_eq!(file.flag(), "--questions-file");
    assert!(question_source(None, None).unwrap().is_none());
}

#[test]
fn the_shorthands_are_checked_choice_first() {
    let labels = vec!["bug".to_owned(), "feature".to_owned()];
    let levels = vec!["low".to_owned(), "high".to_owned()];
    assert_eq!(
        shorthand(&labels, &levels, Some("What kind of issue is this?")),
        Some(Shorthand::Choice {
            instructions: "What kind of issue is this?".to_owned(),
            labels: labels.clone(),
        })
    );
    assert_eq!(
        shorthand(&Vec::new(), &levels, None),
        Some(Shorthand::Score { instructions: String::new(), rubric: levels.clone() })
    );
    assert_eq!(
        shorthand(&Vec::new(), &Vec::new(), Some("Is this urgent?")),
        Some(Shorthand::Noul { text: "Is this urgent?".to_owned() })
    );
    assert_eq!(shorthand(&Vec::new(), &Vec::new(), None), None);
    assert_eq!(SHORTHAND, "answer");
}

#[test]
fn an_items_file_is_a_json_array_of_strings_with_blanks_dropped() {
    assert_eq!(items_of(r#"["a", "  ", "b\nc"]"#).unwrap(), vec!["a".to_owned(), "b\nc".to_owned()]);
    assert_eq!(items_of(r#"["", " "]"#).unwrap_err().message(), "`--items-file` held no items");
    let refused = items_of(r#"{"a": 1}"#).unwrap_err().message();
    assert!(refused.starts_with("`--items-file` must be a JSON array of strings: "), "{refused}");
    assert!(refused.ends_with('.'), "{refused}");
}

#[test]
fn stdin_lines_refuse_blank_input_and_keep_the_rest_in_order() {
    assert_eq!(
        stdin_lines(" \n\t ".to_owned()).unwrap_err().message(),
        "standard input was empty; `-` means read the text from stdin"
    );
    assert_eq!(
        stdin_lines("  first \r\n\n second\n".to_owned()).unwrap(),
        vec!["first".to_owned(), "second".to_owned()]
    );
}
