use crate::text::{has_prefix, same_text, starts_with};
use vstd::prelude::*;

verus! {

/// What the pool says of a submitted share.
#[derive(Debug, Clone, PartialEq, Eq)]
pub enum Feedback {
    /// The share was accepted.
    Accepted,
    /// The share was rejected, for the reason given.
    Rejected(String),
    /// A new block was found.
    NewBlock,
    /// Any other line, as it came.
    Other(String),
}

/// Feedback as plain values.
pub enum FeedbackView {
    Accepted,
    Rejected(Seq<char>),
    NewBlock,
    Other(Seq<char>),
}

impl View for Feedback {
    type V = FeedbackView;

    open spec fn view(&self) -> FeedbackView {
        match self {
            Feedback::Accepted => FeedbackView::Accepted,
            Feedback::Rejected(reason) => FeedbackView::Rejected(reason@),
            Feedback::NewBlock => FeedbackView::NewBlock,
            Feedback::Other(raw) => FeedbackView::Other(raw@),
        }
    }
}

/// The feedback that the trimmed line `line` stands for. The rules are
/// tried in this order: `GOOD` is an accepted share; a line that begins
/// with `BAD,` is a rejected one, the rest of the line being the reason;
/// `BLOCK` is a new block; every other line stands for itself.
pub open spec fn feedback_of(line: Seq<char>) -> FeedbackView {
    if line == "GOOD"@ {
        FeedbackView::Accepted
    } else if has_prefix(line, "BAD,"@) {
        FeedbackView::Rejected(line.subrange(4, line.len() as int))
    } else if line == "BLOCK"@ {
        FeedbackView::NewBlock
    } else {
        FeedbackView::Other(line)
    }
}

/// Classifies one trimmed line of feedback. Every line classifies.
pub fn classify(line: &str) -> (feedback: Feedback)
    ensures
        feedback@ == feedback_of(line@),
{
    if same_text(line, "GOOD") {
        Feedback::Accepted
    } else if starts_with(line, "BAD,") {
        proof {
            reveal_strlit("BAD,");
        }
        let len = line.unicode_len();
        Feedback::Rejected(line.substring_char(4, len).to_owned())
    } else if same_text(line, "BLOCK") {
        Feedback::NewBlock
    } else {
        Feedback::Other(line.to_owned())
    }
}

} // verus!
