//! What a solver hands back for one iteration, and the contract every solver
//! implements.
use crate::cost::Cost;
use crate::error::Error;
use crate::iterstate::IterState;
use crate::problem::Problem;
use crate::termination::TerminationReason;
use vstd::prelude::*;

verus! {

/// The artifacts a solver computed in one iteration; absent ones are left as
/// they were in the state.
#[derive(Clone, Debug)]
pub struct IterData<P, G, J, H> {
    pub param: Option<P>,
    pub cost: Option<Cost>,
    pub grad: Option<G>,
    pub hessian: Option<H>,
    pub inv_hessian: Option<H>,
    pub jacobian: Option<J>,
    pub population: Option<Vec<(P, Cost)>>,
    /// A reason to stop that the solver gives
    pub termination_reason: Option<TerminationReason>,
}

impl<P, G, J, H> IterData<P, G, J, H> {
    /// No artifacts and no reason to stop.
    pub fn new() -> (r: Self)
        ensures
            r.param is None && r.cost is None && r.grad is None,
            r.hessian is None && r.inv_hessian is None && r.jacobian is None,
            r.population is None && r.termination_reason is None,
    {
        IterData {
            param: None,
            cost: None,
            grad: None,
            hessian: None,
            inv_hessian: None,
            jacobian: None,
            population: None,
            termination_reason: None,
        }
    }

    /// Sets the parameter vector.
    pub fn param(self, param: P) -> (r: Self)
        ensures
            r == (IterData { param: Some(param), ..self }),
    {
        IterData { param: Some(param), ..self }
    }

    /// Sets the cost.
    pub fn cost(self, cost: Cost) -> (r: Self)
        ensures
            r == (IterData { cost: Some(cost), ..self }),
    {
        IterData { cost: Some(cost), ..self }
    }

    /// Sets the gradient.
    pub fn grad(self, grad: G) -> (r: Self)
        ensures
            r == (IterData { grad: Some(grad), ..self }),
    {
        IterData { grad: Some(grad), ..self }
    }

    /// Sets the Hessian.
    pub fn hessian(self, hessian: H) -> (r: Self)
        ensures
            r == (IterData { hessian: Some(hessian), ..self }),
    {
        IterData { hessian: Some(hessian), ..self }
    }

    /// Sets the inverse Hessian.
    pub fn inv_hessian(self, inv_hessian: H) -> (r: Self)
        ensures
            r == (IterData { inv_hessian: Some(inv_hessian), ..self }),
    {
        IterData { inv_hessian: Some(inv_hessian), ..self }
    }

    /// Sets the Jacobian.
    pub fn jacobian(self, jacobian: J) -> (r: Self)
        ensures
            r == (IterData { jacobian: Some(jacobian), ..self }),
    {
        IterData { jacobian: Some(jacobian), ..self }
    }

    /// Sets the population.
    pub fn population(self, population: Vec<(P, Cost)>) -> (r: Self)
        ensures
            r == (IterData { population: Some(population), ..self }),
    {
        IterData { population: Some(population), ..self }
    }

    /// Sets the reason to stop.
    pub fn termination_reason(self, reason: TerminationReason) -> (r: Self)
        ensures
            r == (IterData { termination_reason: Some(reason), ..self }),
    {
        IterData { termination_reason: Some(reason), ..self }
    }
}

/// An optimization algorithm: from the problem and the current state it computes
/// one iteration's artifacts, or fails.
pub trait Solver<O, P, G, J, H> {
    /// Computes the next iteration.
    fn next_iter(&mut self, problem: &mut Problem<O>, state: &IterState<P, G, J, H>) -> Result<
        IterData<P, G, J, H>,
        Error,
    >;
}

} // verus!
