//! Which single question the shorthand flags describe.
//!
//! The common case is one question, and writing it as JSON to ask it once is
//! friction with no payoff. The shorthands are checked in a fixed order, so a
//! caller who passes two of them gets a predictable question rather than
//! whichever happened to be looked at first.

use vstd::prelude::*;

use crate::text::{copy_all, owned, texts};

verus! {

/// The name a shorthand question is answered under.
pub const SHORTHAND: &'static str = "answer";

/// One question, as the shorthand flags describe it.
#[derive(Debug, Clone, PartialEq, Eq)]
pub enum Shorthand {
    /// Choose one of the labels.
    Choice {
        /// What to ask, from `--noul`; empty when it was not given.
        instructions: String,
        /// The labels, from `--choice`, in the order given.
        labels: Vec<String>,
    },
    /// Rate against the rubric, lowest level first.
    Score {
        /// What to ask, from `--noul`; empty when it was not given.
        instructions: String,
        /// The ordered levels, from `--score`.
        rubric: Vec<String>,
    },
    /// Answer yes or no.
    Noul {
        /// The question, from `--noul`.
        text: String,
    },
}

/// The instructions a choice or score shorthand carries: the `--noul` text,
/// or nothing.
pub open spec fn instructions_of(noul: Option<&str>) -> Seq<char> {
    match noul {
        Some(t) => t@,
        None => Seq::empty(),
    }
}

/// The question the flags describe: a choice when labels were given, else a
/// score when levels were given, else a yes/no question when one was given.
pub open spec fn described(r: Option<Shorthand>, choice: Seq<String>, score: Seq<String>, noul: Option<&str>) -> bool {
    if choice.len() > 0 {
        r matches Some(Shorthand::Choice { instructions, labels })
            && instructions@ == instructions_of(noul) && texts(labels@) == texts(choice)
    } else if score.len() > 0 {
        r matches Some(Shorthand::Score { instructions, rubric })
            && instructions@ == instructions_of(noul) && texts(rubric@) == texts(score)
    } else {
        match noul {
            Some(t) => r matches Some(Shorthand::Noul { text }) && text@ == t@,
            None => r is None,
        }
    }
}

/// The single question the shorthand flags describe, checked in a fixed
/// order: `--choice`, then `--score`, then `--noul` alone. `None` when none
/// was given.
pub fn shorthand(choice: &Vec<String>, score: &Vec<String>, noul: Option<&str>) -> (r: Option<Shorthand>)
    ensures
        described(r, choice@, score@, noul),
{
    let instructions = match noul {
        Some(t) => owned(t),
        None => String::new(),
    };
    if choice.len() > 0 {
        return Some(Shorthand::Choice { instructions, labels: copy_all(choice) });
    }
    if score.len() > 0 {
        return Some(Shorthand::Score { instructions, rubric: copy_all(score) });
    }
    match noul {
        Some(t) => Some(Shorthand::Noul { text: owned(t) }),
        None => None,
    }
}

/// `--noul` is the question text of whichever question the flags describe:
/// a choice or a score carries it as its instructions (nothing when it was
/// not given), and a yes/no question is it. Labels win over levels, and
/// levels over a bare `--noul`; with none of them there is no question.
pub proof fn law_noul_is_the_question_text(
    choice: Seq<String>,
    score: Seq<String>,
    noul: Option<&str>,
    r: Option<Shorthand>,
)
    requires
        described(r, choice, score, noul),
    ensures
        r matches Some(Shorthand::Choice { instructions, .. }) ==> match noul {
            Some(t) => instructions@ == t@,
            None => instructions@.len() == 0,
        },
        r matches Some(Shorthand::Score { instructions, .. }) ==> match noul {
            Some(t) => instructions@ == t@,
            None => instructions@.len() == 0,
        },
        r matches Some(Shorthand::Noul { text }) ==> noul matches Some(t) && text@ == t@,
        choice.len() > 0 ==> (r matches Some(Shorthand::Choice { labels, .. })
            && labels@.len() == choice.len()
            && forall|i: int| 0 <= i < choice.len() ==> (#[trigger] labels@[i])@ == choice[i]@),
        choice.len() == 0 && score.len() > 0 ==> (r matches Some(Shorthand::Score { rubric, .. })
            && rubric@.len() == score.len()
            && forall|i: int| 0 <= i < score.len() ==> (#[trigger] rubric@[i])@ == score[i]@),
        choice.len() == 0 && score.len() == 0 ==> (r is None <==> noul is None),
{
    if choice.len() > 0 {
        if let Some(Shorthand::Choice { labels, .. }) = r {
            assert(texts(labels@).len() == labels@.len() && texts(choice).len() == choice.len());
            assert forall|i: int| 0 <= i < choice.len() implies (#[trigger] labels@[i])@ == choice[i]@ by {
                assert(texts(labels@)[i] == labels@[i]@ && texts(choice)[i] == choice[i]@);
            }
        }
    } else if score.len() > 0 {
        if let Some(Shorthand::Score { rubric, .. }) = r {
            assert(texts(rubric@).len() == rubric@.len() && texts(score).len() == score.len());
            assert forall|i: int| 0 <= i < score.len() implies (#[trigger] rubric@[i])@ == score[i]@ by {
                assert(texts(rubric@)[i] == rubric@[i]@ && texts(score)[i] == score[i]@);
            }
        }
    }
}

} // verus!
