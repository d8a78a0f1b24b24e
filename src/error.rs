//! Errors of a run.
use vstd::prelude::*;

verus! {

/// Why a run or a configuration failed.
#[derive(Clone, Debug, PartialEq, Eq)]
pub enum Error {
    /// A solver's configuration was rejected.
    InvalidParameter { text: String },
    /// Evaluating the problem failed for a parameter vector.
    EvaluationFailure { text: String },
}

} // verus!
