//! What a classification run reports.
//!
//! A failed item is a row, not an aborted run: one unclassifiable line in a
//! thousand should not cost the other nine hundred and ninety-nine. A batch
//! reports what it cost in total; an item that failed spent nothing.

use vstd::prelude::*;

use super::kit::{saturated, Usage};
use crate::json::Json;

verus! {

/// One item and what came back for it.
#[derive(Debug)]
pub struct Item {
    /// The line that was classified.
    pub item: String,
    /// The answers, keyed by question name.
    pub answers: Json,
    /// Whether any answer fell below the confidence threshold.
    pub uncertain: bool,
    /// What went wrong, when this item could not be classified.
    pub error: Option<String>,
}

/// Every item, in the order they were read.
#[derive(Debug)]
pub struct Classified {
    /// The model that answered.
    pub model: String,
    /// One entry per input line.
    pub items: Vec<Item>,
    /// How many answers fell below the confidence threshold.
    pub uncertain: usize,
    /// How many items could not be classified at all.
    pub failed: usize,
    /// Tokens consumed by every item that was answered.
    pub usage: Usage,
}

/// Input tokens over a run, added without wrapping.
pub open spec fn input_total(spent: Seq<(Item, Usage)>) -> int
    decreases spent.len(),
{
    if spent.len() == 0 { 0 } else { saturated(input_total(spent.drop_last()), spent.last().1.input_tokens as int) }
}

/// Output tokens over a run, added without wrapping.
pub open spec fn output_total(spent: Seq<(Item, Usage)>) -> int
    decreases spent.len(),
{
    if spent.len() == 0 { 0 } else { saturated(output_total(spent.drop_last()), spent.last().1.output_tokens as int) }
}

/// How many items are marked uncertain.
pub open spec fn uncertain_count(spent: Seq<(Item, Usage)>) -> int
    decreases spent.len(),
{
    if spent.len() == 0 { 0 } else { uncertain_count(spent.drop_last()) + if spent.last().0.uncertain { 1int } else { 0 } }
}

/// How many items carry an error.
pub open spec fn failed_count(spent: Seq<(Item, Usage)>) -> int
    decreases spent.len(),
{
    if spent.len() == 0 { 0 } else { failed_count(spent.drop_last()) + if spent.last().0.error is Some { 1int } else { 0 } }
}

proof fn lemma_counts_bounded(spent: Seq<(Item, Usage)>)
    ensures
        0 <= uncertain_count(spent) <= spent.len(),
        0 <= failed_count(spent) <= spent.len(),
        0 <= input_total(spent) <= u64::MAX,
        0 <= output_total(spent) <= u64::MAX,
    decreases spent.len(),
{
    if spent.len() > 0 {
        lemma_counts_bounded(spent.drop_last());
    }
}

impl Classified {
    /// Folds the per-item results, in order, into the reported shape.
    pub fn of(model: String, answered: Vec<(Item, Usage)>) -> (r: Classified)
        ensures
            r.model == model,
            r.items@ == answered@.map_values(|p: (Item, Usage)| p.0),
            r.uncertain == uncertain_count(answered@),
            r.failed == failed_count(answered@),
            r.usage.input_tokens == input_total(answered@),
            r.usage.output_tokens == output_total(answered@),
    {
        let ghost all = answered@;
        let total = answered.len();
        let mut usage = Usage::zero();
        let mut items: Vec<Item> = Vec::new();
        let mut uncertain: usize = 0;
        let mut failed: usize = 0;
        let mut rest = crate::text::reversed(answered);
        assert(rest@.reverse() =~= all);
        assert(all.skip(0) =~= all);
        let ghost mut n: int = 0;
        while rest.len() > 0
            invariant
                rest@.reverse() == all.skip(n),
                0 <= n <= all.len(),
                rest@.len() == all.len() - n,
                all.len() == total,
                items@ == all.take(n).map_values(|p: (Item, Usage)| p.0),
                uncertain == uncertain_count(all.take(n)),
                failed == failed_count(all.take(n)),
                usage.input_tokens == input_total(all.take(n)),
                usage.output_tokens == output_total(all.take(n)),
            decreases rest.len(),
        {
            let ghost before = rest@;
            let (item, spent) = rest.pop().unwrap();
            proof {
                assert(before.reverse()[0] == before.last());
                assert(all.skip(n)[0] == all[n]);
                assert(all[n] == (item, spent));
                assert(all.take(n + 1).drop_last() =~= all.take(n));
                assert(all.take(n + 1).last() == all[n]);
                assert(rest@.reverse() =~= before.reverse().drop_first());
                assert(all.skip(n + 1) =~= all.skip(n).drop_first());
                lemma_counts_bounded(all.take(n + 1));
                assert(all.take(n + 1).len() == n + 1);
            }
            usage.input_tokens = usage.input_tokens.saturating_add(spent.input_tokens);
            usage.output_tokens = usage.output_tokens.saturating_add(spent.output_tokens);
            if item.uncertain {
                uncertain = uncertain + 1;
            }
            if item.error.is_some() {
                failed = failed + 1;
            }
            items.push(item);
            proof {
                n = n + 1;
                assert(items@ =~= all.take(n).map_values(|p: (Item, Usage)| p.0));
            }
        }
        proof {
            assert(all.skip(n).len() == 0);
            assert(all.take(n) =~= all);
        }
        Classified { model, items, uncertain, failed, usage }
    }
}

/// One item the run could not answer, reported as a row rather than an
/// abort: no answers, marked uncertain, and what went wrong.
pub fn failed(item: String, error: &str) -> (r: Item)
    ensures
        r.item == item,
        r.answers == Json::Null,
        r.uncertain,
        r.error matches Some(e) && e@ == error@,
{
    Item { item, answers: Json::Null, uncertain: true, error: Some(crate::text::owned(error)) }
}

} // verus!
