//! The driving loop: asks the solver for each iteration, merges what it
//! computed into the state, tracks the best, and decides when to stop.
use crate::cost::Cost;
use crate::counts::count_of;
use crate::elapsed::Elapsed;
use crate::error::Error;
use crate::iterstate::IterState;
use crate::problem::Problem;
use crate::result::ArgminResult;
use crate::solver::{IterData, Solver};
use crate::termination::{decide, spec_decide, TerminationReason};
use vstd::prelude::*;

verus! {

/// `s` with every artifact that `d` holds set by the shifting setters, and the
/// population replaced where `d` holds one.
pub open spec fn spec_merged<P, G, J, H>(s: IterState<P, G, J, H>, d: IterData<P, G, J, H>) -> IterState<P, G, J, H> {
    let s1 = match d.param {
        Some(p) => s.with_param(p),
        None => s,
    };
    let s2 = match d.cost {
        Some(c) => s1.with_cost(c),
        None => s1,
    };
    let s3 = match d.grad {
        Some(g) => s2.with_grad(g),
        None => s2,
    };
    let s4 = match d.hessian {
        Some(h) => s3.with_hessian(h),
        None => s3,
    };
    let s5 = match d.inv_hessian {
        Some(h) => s4.with_inv_hessian(h),
        None => s4,
    };
    let s6 = match d.jacobian {
        Some(j) => s5.with_jacobian(j),
        None => s5,
    };
    match d.population {
        Some(pop) => IterState { population: Some(pop), ..s6 },
        None => s6,
    }
}

/// Merges the artifacts of one iteration into the state.
pub fn merge<P: Clone, G, J, H>(state: IterState<P, G, J, H>, data: IterData<P, G, J, H>) -> (r: IterState<P, G, J, H>)
    ensures
        r == spec_merged(state, data),
{
    let IterData { param, cost, grad, hessian, inv_hessian, jacobian, population, termination_reason: _ } = data;
    let mut s = state;
    if let Some(p) = param {
        s = s.param(p);
    }
    if let Some(c) = cost {
        s = s.cost(c);
    }
    if let Some(g) = grad {
        s = s.grad(g);
    }
    if let Some(h) = hessian {
        s = s.hessian(h);
    }
    if let Some(h) = inv_hessian {
        s = s.inv_hessian(h);
    }
    if let Some(j) = jacobian {
        s = s.jacobian(j);
    }
    if let Some(pop) = population {
        s = s.population(pop);
    }
    s
}

/// Whether the time spent exceeds the time budget; without a budget or a
/// measurement it never does.
pub open spec fn spec_timed_out(timeout: Option<Elapsed>, elapsed: Option<Elapsed>) -> bool {
    match (timeout, elapsed) {
        (Some(t), Some(e)) => e.total_nanos() > t.total_nanos(),
        _ => false,
    }
}

/// Whether the time spent exceeds the time budget.
pub fn timed_out(timeout: &Option<Elapsed>, elapsed: &Option<Elapsed>) -> (r: bool)
    ensures
        r == spec_timed_out(*timeout, *elapsed),
{
    match (timeout, elapsed) {
        (Some(t), Some(e)) => e.exceeds(t),
        _ => false,
    }
}

/// `new` is a possible state after one iteration from `old` with the solver's
/// artifacts `d`, the problem's counts `counts`, the time spent `elapsed`, the
/// time budget `timeout` and the interruption flag `interrupted`: the artifacts
/// are merged, the counts taken over, the iteration counter advanced, the best
/// updated, the time recorded where measured, and the termination reason decided.
pub open spec fn spec_advanced<P: Clone, G, J, H>(
    old: IterState<P, G, J, H>,
    d: IterData<P, G, J, H>,
    counts: Seq<(String, u64)>,
    elapsed: Option<Elapsed>,
    timeout: Option<Elapsed>,
    interrupted: bool,
    new: IterState<P, G, J, H>,
) -> bool {
    let m = spec_merged(old, d);
    let advanced = IterState { iter: (old.iter + 1) as u64, counts: new.counts, ..m };
    &&& IterState::spec_updated(
        advanced,
        IterState { time: m.time, termination_reason: m.termination_reason, ..new },
    )
    &&& forall|name: Seq<char>|
        #[trigger] count_of(new.counts@, name) == match count_of(counts, name) {
            Some(v) => Some(v),
            None => count_of(old.counts@, name),
        }
    &&& new.time == if elapsed is Some {
        elapsed
    } else {
        old.time
    }
    &&& new.termination_reason == spec_decide(
        d.termination_reason,
        new.cost,
        new.target_cost,
        new.iter,
        new.max_iters,
        spec_timed_out(timeout, elapsed),
        interrupted,
    )
}

/// Runs a solver on a problem, from a configured state until a termination
/// reason is found.
pub struct Executor<O, S, P, G, J, H> {
    /// The problem, with its evaluation counts
    pub problem: Problem<O>,
    /// The solver
    pub solver: S,
    /// The state of the run
    pub state: IterState<P, G, J, H>,
    /// The time budget, if any
    pub timeout: Option<Elapsed>,
}

impl<O, S: Solver<O, P, G, J, H>, P: Clone, G, J, H> Executor<O, S, P, G, J, H> {
    /// An executor of `solver` on `problem`, with a fresh state and no time budget.
    pub fn new(problem: O, solver: S) -> (r: Self)
        ensures
            r.problem.problem == Some(problem),
            r.problem.counts@.len() == 0,
            r.solver == solver,
            r.state.is_fresh(),
            r.timeout is None,
    {
        Executor { problem: Problem::new(problem), solver, state: IterState::new(), timeout: None }
    }

    /// Sets the initial parameter vector.
    pub fn param(self, param: P) -> (r: Self)
        ensures
            r == (Executor { state: self.state.with_param(param), ..self }),
    {
        let Executor { problem, solver, state, timeout } = self;
        Executor { problem, solver, state: state.param(param), timeout }
    }

    /// Sets the target cost.
    pub fn target_cost(self, target_cost: Cost) -> (r: Self)
        ensures
            r == (Executor { state: IterState { target_cost, ..self.state }, ..self }),
    {
        let Executor { problem, solver, state, timeout } = self;
        Executor { problem, solver, state: state.target_cost(target_cost), timeout }
    }

    /// Sets the maximum number of iterations.
    pub fn max_iters(self, iters: u64) -> (r: Self)
        ensures
            r == (Executor { state: IterState { max_iters: iters, ..self.state }, ..self }),
    {
        let Executor { problem, solver, state, timeout } = self;
        Executor { problem, solver, state: state.max_iters(iters), timeout }
    }

    /// Sets the time budget.
    pub fn timeout(self, timeout: Elapsed) -> (r: Self)
        ensures
            r == (Executor { timeout: Some(timeout), ..self }),
    {
        Executor { timeout: Some(timeout), ..self }
    }

    /// Applies one iteration's artifacts `data` to the state and decides whether
    /// the run stops, and why.
    pub fn apply(&mut self, data: IterData<P, G, J, H>, elapsed: Option<Elapsed>, interrupted: bool) -> (r: TerminationReason)
        requires
            old(self).state.iter < u64::MAX,
        ensures
            spec_advanced(
                old(self).state,
                data,
                old(self).problem.counts@,
                elapsed,
                old(self).timeout,
                interrupted,
                final(self).state,
            ),
            r == final(self).state.termination_reason,
            final(self).state.iter == old(self).state.iter + 1,
            final(self).problem == old(self).problem,
            final(self).solver == old(self).solver,
            final(self).timeout == old(self).timeout,
    {
        let solver_reason = data.termination_reason;
        let mut state = IterState::new();
        std::mem::swap(&mut state, &mut self.state);
        let mut state = merge(state, data);
        state.func_counts(&self.problem);
        state.increment_iter();
        state.update();
        if elapsed.is_some() {
            state.time = elapsed;
        }
        let t = timed_out(&self.timeout, &elapsed);
        let reason = decide(
            solver_reason,
            state.cost,
            state.target_cost,
            state.iter,
            state.max_iters,
            t,
            interrupted,
        );
        state.termination_reason = reason;
        self.state = state;
        reason
    }

    /// Runs one iteration: asks the solver for its artifacts and applies them.
    /// A run that has stopped is left as it is. A failing solver leaves the state
    /// as it was. At the last representable iteration no solver is asked and the
    /// run stops by the iteration budget or the target cost.
    pub fn step(&mut self, elapsed: Option<Elapsed>, interrupted: bool) -> (r: Result<TerminationReason, Error>)
        ensures
            final(self).timeout == old(self).timeout,
            old(self).state.termination_reason != TerminationReason::NotTerminated ==> {
                &&& *final(self) == *old(self)
                &&& r == Ok::<TerminationReason, Error>(old(self).state.termination_reason)
            },
            r is Err ==> final(self).state == old(self).state,
            r is Ok ==> r->Ok_0 == final(self).state.termination_reason,
            old(self).state.termination_reason == TerminationReason::NotTerminated
                && old(self).state.iter == u64::MAX ==> {
                &&& final(self).state == (IterState {
                    termination_reason: final(self).state.termination_reason,
                    ..old(self).state
                })
                &&& r == Ok::<TerminationReason, Error>(
                    spec_decide(
                        None,
                        old(self).state.cost,
                        old(self).state.target_cost,
                        old(self).state.iter,
                        old(self).state.max_iters,
                        spec_timed_out(old(self).timeout, elapsed),
                        interrupted,
                    ),
                )
            },
            old(self).state.termination_reason == TerminationReason::NotTerminated
                && old(self).state.iter < u64::MAX && r is Ok ==> {
                &&& final(self).state.iter == old(self).state.iter + 1
                &&& exists|d: IterData<P, G, J, H>, counts: Seq<(String, u64)>|
                    #[trigger] spec_advanced(
                        old(self).state,
                        d,
                        counts,
                        elapsed,
                        old(self).timeout,
                        interrupted,
                        final(self).state,
                    )
            },
            r == Ok::<TerminationReason, Error>(TerminationReason::NotTerminated)
                ==> final(self).state.iter == old(self).state.iter + 1,
    {
        if self.state.termination_reason.terminated() {
            return Ok(self.state.termination_reason);
        }
        if self.state.iter == u64::MAX {
            let t = timed_out(&self.timeout, &elapsed);
            let reason = decide(
                None,
                self.state.cost,
                self.state.target_cost,
                self.state.iter,
                self.state.max_iters,
                t,
                interrupted,
            );
            self.state.termination_reason = reason;
            return Ok(reason);
        }
        match self.solver.next_iter(&mut self.problem, &self.state) {
            Err(e) => Err(e),
            Ok(data) => {
                let reason = self.apply(data, elapsed, interrupted);
                Ok(reason)
            },
        }
    }

    /// Runs iterations until one of them decides that the run stops, and returns
    /// the problem with the final state. A failing solver ends the run with its
    /// error. No time is measured and no interruption is seen; the time budget
    /// still takes part in each decision.
    pub fn run(self) -> (r: Result<ArgminResult<O, P, G, J, H>, Error>)
        ensures
            r is Ok ==> r->Ok_0.state.termination_reason != TerminationReason::NotTerminated,
            r is Ok ==> r->Ok_0.state.iter >= self.state.iter,
            self.state.termination_reason != TerminationReason::NotTerminated ==> r
                == Ok::<ArgminResult<O, P, G, J, H>, Error>(
                ArgminResult { operator: self.problem, state: self.state },
            ),
            self.state.termination_reason == TerminationReason::NotTerminated && self.state.iter
                == u64::MAX ==> {
                &&& r is Ok
                &&& r->Ok_0.state == (IterState {
                    termination_reason: spec_decide(
                        None,
                        self.state.cost,
                        self.state.target_cost,
                        self.state.iter,
                        self.state.max_iters,
                        false,
                        false,
                    ),
                    ..self.state
                })
            },
            r is Ok && r->Ok_0.state.iter > self.state.iter ==> exists|
                prev: IterState<P, G, J, H>,
                d: IterData<P, G, J, H>,
                counts: Seq<(String, u64)>,
            |
                #[trigger] spec_advanced(
                    prev,
                    d,
                    counts,
                    None,
                    self.timeout,
                    false,
                    r->Ok_0.state,
                ),
    {
        let mut ex = self;
        loop
            invariant
                ex.state.iter >= self.state.iter,
                ex.timeout == self.timeout,
                ex.state.iter == self.state.iter ==> ex == self,
                ex.state.iter > self.state.iter ==> {
                    &&& ex.state.termination_reason == TerminationReason::NotTerminated
                    &&& exists|
                        prev: IterState<P, G, J, H>,
                        d: IterData<P, G, J, H>,
                        counts: Seq<(String, u64)>,
                    |
                        #[trigger] spec_advanced(
                            prev,
                            d,
                            counts,
                            None,
                            self.timeout,
                            false,
                            ex.state,
                        )
                },
                self.state.termination_reason != TerminationReason::NotTerminated ==> ex == self,
            decreases u64::MAX - ex.state.iter,
        {
            let ghost before = ex.state.iter;
            match ex.step(None, false) {
                Err(e) => {
                    return Err(e);
                },
                Ok(reason) => {
                    if reason.terminated() {
                        let Executor { problem, solver: _, state, timeout: _ } = ex;
                        return Ok(ArgminResult::new(problem, state));
                    }
                    assert(ex.state.iter == before + 1);
                },
            }
        }
    }
}

/// When the solver gives a reason to stop in the same iteration in which the
/// iteration budget runs out, the run stops for the solver's reason.
pub proof fn lemma_solver_reason_wins<P: Clone, G, J, H>(
    old: IterState<P, G, J, H>,
    d: IterData<P, G, J, H>,
    counts: Seq<(String, u64)>,
    elapsed: Option<Elapsed>,
    timeout: Option<Elapsed>,
    interrupted: bool,
    new: IterState<P, G, J, H>,
)
    requires
        spec_advanced(old, d, counts, elapsed, timeout, interrupted, new),
        d.termination_reason is Some,
        d.termination_reason->0 != TerminationReason::NotTerminated,
        new.iter >= new.max_iters,
    ensures
        new.termination_reason == d.termination_reason->0,
{
}

} // verus!
