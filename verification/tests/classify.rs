use typesafe_sdk::cmd::classify::{failed, Classified, Item};
use typesafe_sdk::cmd::kit::Usage;
use typesafe_sdk::json::Json;

fn item(uncertain: bool, error: Option<&str>) -> Item {
    Item {
        item: "x".to_owned(),
        answers: Json::Null,
        uncertain,
        error: error.map(str::to_owned),
    }
}

fn spent(input: u64, output: u64) -> Usage {
    Usage {
        input_tokens: input,
        output_tokens: output,
    }
}

#[test]
fn usage_totals_every_item() {
    let report = Classified::of(
        "jev-1".to_owned(),
        vec![
            (item(false, None), spent(10, 1)),
            (item(false, None), spent(200, 20)),
            (item(false, None), spent(3000, 300)),
        ],
    );
    assert_eq!(report.usage.input_tokens, 3210);
    assert_eq!(report.usage.output_tokens, 321);
}

#[test]
fn a_failed_item_costs_nothing_and_still_counts() {
    let report = Classified::of(
        "jev-1".to_owned(),
        vec![
            (item(false, None), spent(7, 2)),
            (item(true, Some("boom")), Usage::default()),
        ],
    );
    assert_eq!(report.usage.input_tokens, 7);
    assert_eq!(report.failed, 1);
    assert_eq!(report.uncertain, 1);
    assert_eq!(report.items.len(), 2);
}

#[test]
fn items_keep_their_order_and_totals_saturate() {
    let mut first = item(true, None);
    first.item = "first".to_owned();
    let mut second = item(false, None);
    second.item = "second".to_owned();
    let report = Classified::of(
        "jev-1".to_owned(),
        vec![(first, spent(u64::MAX, 1)), (second, spent(5, 1))],
    );
    assert_eq!(report.items[0].item, "first");
    assert_eq!(report.items[1].item, "second");
    assert_eq!(report.usage.input_tokens, u64::MAX);
    assert_eq!(report.usage.output_tokens, 2);
    assert_eq!(report.uncertain, 1);
    assert_eq!(report.failed, 0);
    assert_eq!(report.model, "jev-1");
    let empty = Classified::of("m".to_owned(), Vec::new());
    assert_eq!((empty.items.len(), empty.uncertain, empty.failed), (0, 0, 0));
}

#[test]
fn a_failed_item_is_an_uncertain_row_carrying_its_error() {
    let row = failed("a line".to_owned(), "Connection error: reset");
    assert_eq!(row.item, "a line");
    assert_eq!(row.answers, Json::Null);
    assert!(row.uncertain);
    assert_eq!(row.error.as_deref(), Some("Connection error: reset"));
}
