//! The problem wrapper handed to solvers: the user's problem and how often each
//! of its operations was evaluated.
use vstd::prelude::*;

verus! {

/// A problem of type `O` with its evaluation counts by operation name.
#[derive(Clone, Debug)]
pub struct Problem<O> {
    /// The problem, absent while a solver has taken it out
    pub problem: Option<O>,
    /// Evaluation counts as (operation name, count) pairs
    pub counts: Vec<(String, u64)>,
}

impl<O> Problem<O> {
    /// Wraps `problem` with no evaluations counted.
    pub fn new(problem: O) -> (r: Self)
        ensures
            r.problem == Some(problem),
            r.counts@.len() == 0,
    {
        Problem { problem: Some(problem), counts: Vec::new() }
    }
}

} // verus!
