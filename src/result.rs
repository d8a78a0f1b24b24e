//! The outcome of a run: the problem wrapper and the final state, compared by
//! cost.
use crate::cost::Cost;
use crate::iterstate::IterState;
use crate::problem::Problem;
use std::cmp::Ordering;
use vstd::prelude::*;

verus! {

/// A finished run: the problem it ran on and its last state.
#[derive(Clone, Debug)]
pub struct ArgminResult<O, P, G, J, H> {
    /// The problem, with its evaluation counts
    pub operator: Problem<O>,
    /// The final state
    pub state: IterState<P, G, J, H>,
}

impl<O, P, G, J, H> ArgminResult<O, P, G, J, H> {
    /// A result of `operator` and `state`.
    pub fn new(operator: Problem<O>, state: IterState<P, G, J, H>) -> (r: Self)
        ensures
            r.operator == operator,
            r.state == state,
    {
        ArgminResult { operator, state }
    }

    /// The problem.
    pub fn operator(&self) -> (r: &Problem<O>)
        ensures
            r == &self.operator,
    {
        &self.operator
    }

    /// The final state.
    pub fn state(&self) -> (r: &IterState<P, G, J, H>)
        ensures
            r == &self.state,
    {
        &self.state
    }

    /// Orders two results by their current costs: `Equal` where the costs are
    /// equal up to `COST_EPSILON`, else by the sign of their difference.
    pub fn cmp(&self, other: &Self) -> (r: Ordering)
        ensures
            r == self.state.cost.spec_compare(other.state.cost),
    {
        self.state.cost.compare(&other.state.cost)
    }
}

impl<O, P, G, J, H> PartialEq for ArgminResult<O, P, G, J, H> {
    fn eq(&self, other: &Self) -> (r: bool)
        ensures
            r == self.state.cost.spec_within_epsilon(other.state.cost),
    {
        self.state.cost.within_epsilon(&other.state.cost)
    }
}

impl<O, P, G, J, H> vstd::std_specs::cmp::PartialEqSpecImpl for ArgminResult<O, P, G, J, H> {
    open spec fn obeys_eq_spec() -> bool {
        true
    }

    open spec fn eq_spec(&self, other: &Self) -> bool {
        self.state.cost.spec_within_epsilon(other.state.cost)
    }
}

impl<O, P, G, J, H> Eq for ArgminResult<O, P, G, J, H> {

}

impl<O, P, G, J, H> PartialOrd for ArgminResult<O, P, G, J, H> {
    fn partial_cmp(&self, other: &Self) -> (r: Option<Ordering>)
        ensures
            r == Some(self.state.cost.spec_compare(other.state.cost)),
    {
        Some(self.cmp(other))
    }
}

impl<O, P, G, J, H> vstd::std_specs::cmp::PartialOrdSpecImpl for ArgminResult<O, P, G, J, H> {
    open spec fn obeys_partial_cmp_spec() -> bool {
        true
    }

    open spec fn partial_cmp_spec(&self, other: &Self) -> Option<Ordering> {
        Some(self.state.cost.spec_compare(other.state.cost))
    }
}

/// Results compare equal exactly when their costs are finite and differ by less
/// than `COST_EPSILON` or are the same infinity, and otherwise their order follows
/// the sign of the cost difference: the higher cost is the greater result. The
/// order is total: every result equals itself, and swapping the two results
/// swaps `Less` and `Greater`.
pub proof fn lemma_result_order(a: Cost, b: Cost)
    ensures
        a.spec_compare(a) == Ordering::Equal,
        a.spec_compare(b) == Ordering::Less <==> b.spec_compare(a) == Ordering::Greater,
        a.spec_compare(b) == Ordering::Equal <==> b.spec_compare(a) == Ordering::Equal,
        (a.spec_compare(b) == Ordering::Equal) == a.spec_within_epsilon(b),
        !a.spec_within_epsilon(b) && b.spec_lt(a) ==> a.spec_compare(b) == Ordering::Greater,
        !a.spec_within_epsilon(b) && a.spec_lt(b) ==> a.spec_compare(b) == Ordering::Less,
        a.spec_within_epsilon(b) == b.spec_within_epsilon(a),
{
}

} // verus!
