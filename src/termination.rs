//! Why a run stopped, and the rule that decides it after each iteration.
use crate::cost::Cost;
use vstd::prelude::*;

verus! {

/// The reason a run stopped.
#[derive(Clone, Copy, Debug, PartialEq, Eq, Structural)]
pub enum TerminationReason {
    /// The run has not stopped.
    NotTerminated,
    /// The iteration budget was used up.
    MaxItersReached,
    /// The cost reached the target cost.
    TargetCostReached,
    /// The solver reached its target precision.
    TargetPrecisionReached,
    /// The cost did not change.
    NoChangeInCost,
    /// The solver stalled for too many iterations.
    BestStallIterExceeded,
    /// A line search met its condition.
    LineSearchConditionMet,
    /// The solver reached its tolerance.
    TargetToleranceReached,
    /// The configured time budget was exceeded.
    Timeout,
    /// The run was interrupted from outside.
    KeyboardInterrupt,
    /// The solver gave up.
    Aborted,
}

impl TerminationReason {
    /// Whether this reason means that the run stopped.
    pub fn terminated(&self) -> (r: bool)
        ensures
            r == (*self != TerminationReason::NotTerminated),
    {
        !matches!(self, TerminationReason::NotTerminated)
    }

    /// The description of each reason.
    pub open spec fn spec_text(self) -> Seq<char> {
        match self {
            TerminationReason::NotTerminated => "Not terminated"@,
            TerminationReason::MaxItersReached => "Maximum number of iterations reached"@,
            TerminationReason::TargetCostReached => "Target cost value reached"@,
            TerminationReason::TargetPrecisionReached => "Target precision reached"@,
            TerminationReason::NoChangeInCost => "No change in cost function value"@,
            TerminationReason::BestStallIterExceeded => "Best stall iterations exceeded"@,
            TerminationReason::LineSearchConditionMet => "Line search condition met"@,
            TerminationReason::TargetToleranceReached => "Target tolerance reached"@,
            TerminationReason::Timeout => "Timeout reached"@,
            TerminationReason::KeyboardInterrupt => "Keyboard interrupt"@,
            TerminationReason::Aborted => "Optimization aborted"@,
        }
    }

    /// A short human-readable description.
    pub fn text(&self) -> (r: &'static str)
        ensures
            r@ == self.spec_text(),
    {
        match self {
            TerminationReason::NotTerminated => "Not terminated",
            TerminationReason::MaxItersReached => "Maximum number of iterations reached",
            TerminationReason::TargetCostReached => "Target cost value reached",
            TerminationReason::TargetPrecisionReached => "Target precision reached",
            TerminationReason::NoChangeInCost => "No change in cost function value",
            TerminationReason::BestStallIterExceeded => "Best stall iterations exceeded",
            TerminationReason::LineSearchConditionMet => "Line search condition met",
            TerminationReason::TargetToleranceReached => "Target tolerance reached",
            TerminationReason::Timeout => "Timeout reached",
            TerminationReason::KeyboardInterrupt => "Keyboard interrupt",
            TerminationReason::Aborted => "Optimization aborted",
        }
    }
}

/// The reason a run stops after an iteration, by priority: a reason the solver
/// gave, then the target cost, then the iteration budget, then the time budget,
/// then an interruption from outside.
pub open spec fn spec_decide(
    solver_reason: Option<TerminationReason>,
    cost: Cost,
    target_cost: Cost,
    iter: u64,
    max_iters: u64,
    timed_out: bool,
    interrupted: bool,
) -> TerminationReason {
    if solver_reason is Some && solver_reason->0 != TerminationReason::NotTerminated {
        solver_reason->0
    } else if cost.spec_le(target_cost) {
        TerminationReason::TargetCostReached
    } else if iter >= max_iters {
        TerminationReason::MaxItersReached
    } else if timed_out {
        TerminationReason::Timeout
    } else if interrupted {
        TerminationReason::KeyboardInterrupt
    } else {
        TerminationReason::NotTerminated
    }
}

/// Decides whether, and why, a run stops after an iteration.
pub fn decide(
    solver_reason: Option<TerminationReason>,
    cost: Cost,
    target_cost: Cost,
    iter: u64,
    max_iters: u64,
    timed_out: bool,
    interrupted: bool,
) -> (r: TerminationReason)
    ensures
        r == spec_decide(solver_reason, cost, target_cost, iter, max_iters, timed_out, interrupted),
{
    match solver_reason {
        Some(reason) if reason.terminated() => reason,
        _ => {
            if cost.at_most(&target_cost) {
                TerminationReason::TargetCostReached
            } else if iter >= max_iters {
                TerminationReason::MaxItersReached
            } else if timed_out {
                TerminationReason::Timeout
            } else if interrupted {
                TerminationReason::KeyboardInterrupt
            } else {
                TerminationReason::NotTerminated
            }
        },
    }
}

/// An explicit reason given by the solver wins over every other check, also when
/// the iteration budget is used up.
pub proof fn lemma_solver_reason_first(
    reason: TerminationReason,
    cost: Cost,
    target_cost: Cost,
    iter: u64,
    max_iters: u64,
    timed_out: bool,
    interrupted: bool,
)
    requires
        reason != TerminationReason::NotTerminated,
        iter >= max_iters,
    ensures
        spec_decide(Some(reason), cost, target_cost, iter, max_iters, timed_out, interrupted)
            == reason,
{
}

} // verus!
