//! Categories of the lexical intent classifier.
//!
//! The classifier itself scores matches with fractional weights and lives
//! outside the library; these are the closed category types its results are
//! reported in.

use vstd::prelude::*;

verus! {

/// What an inbound message is driving at.
#[derive(Clone, Copy, PartialEq, Eq, Structural, Hash, Debug)]
pub enum IntentCategory {
    Positive,
    Negative,
    Question,
    Greeting,
    Farewell,
    Urgency,
    StopRequest,
    Unknown,
}

/// Which layer of the classifier produced a result.
#[derive(Clone, Copy, PartialEq, Eq, Structural, Debug)]
pub enum ClassificationLayer {
    /// Multi-pattern keyword matching: the fast path.
    Keyword,
    /// Pattern matching with regular expressions.
    Pattern,
    /// Embedding similarity: reserved.
    Semantic,
}

} // verus!
