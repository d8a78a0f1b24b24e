//! The state carried from iteration to iteration: current, previous and best
//! values of every artifact, counters, and the best-tracking rule.
use crate::cost::Cost;
use crate::counts::{count_of, set_count};
use crate::problem::Problem;
use crate::elapsed::Elapsed;
use crate::termination::TerminationReason;
use vstd::prelude::*;

verus! {

/// The state of a run between iterations, over parameter vectors `P`,
/// gradients `G`, Jacobians `J` and Hessians `H`.
#[derive(Clone, Debug)]
pub struct IterState<P, G, J, H> {
    /// Current parameter vector
    pub param: Option<P>,
    /// Previous parameter vector
    pub prev_param: Option<P>,
    /// Current best parameter vector
    pub best_param: Option<P>,
    /// Previous best parameter vector
    pub prev_best_param: Option<P>,
    /// Current cost function value
    pub cost: Cost,
    /// Previous cost function value
    pub prev_cost: Cost,
    /// Current best cost function value
    pub best_cost: Cost,
    /// Previous best cost function value
    pub prev_best_cost: Cost,
    /// Target cost function value
    pub target_cost: Cost,
    /// Current gradient
    pub grad: Option<G>,
    /// Previous gradient
    pub prev_grad: Option<G>,
    /// Current Hessian
    pub hessian: Option<H>,
    /// Previous Hessian
    pub prev_hessian: Option<H>,
    /// Current inverse Hessian
    pub inv_hessian: Option<H>,
    /// Previous inverse Hessian
    pub prev_inv_hessian: Option<H>,
    /// Current Jacobian
    pub jacobian: Option<J>,
    /// Previous Jacobian
    pub prev_jacobian: Option<J>,
    /// All members of a population as (parameter vector, cost) pairs
    pub population: Option<Vec<(P, Cost)>>,
    /// Current iteration
    pub iter: u64,
    /// Iteration at which the best cost was last found
    pub last_best_iter: u64,
    /// Maximum number of iterations
    pub max_iters: u64,
    /// Evaluation counts by operation name
    pub counts: Vec<(String, u64)>,
    /// Time required so far
    pub time: Option<Elapsed>,
    /// Reason of termination
    pub termination_reason: TerminationReason,
}

impl<P, G, J, H> IterState<P, G, J, H> {
    /// The state with `p` as current parameter vector and the former current one as
    /// previous.
    pub open spec fn with_param(self, p: P) -> Self {
        IterState { prev_param: self.param, param: Some(p), ..self }
    }

    /// The state with `c` as current cost and the former current cost as previous.
    pub open spec fn with_cost(self, c: Cost) -> Self {
        IterState { prev_cost: self.cost, cost: c, ..self }
    }

    /// The state with `c` as best cost and the former best cost as previous best.
    pub open spec fn with_best_cost(self, c: Cost) -> Self {
        IterState { prev_best_cost: self.best_cost, best_cost: c, ..self }
    }

    /// The state with `p` as best parameter vector and the former one as previous
    /// best.
    pub open spec fn with_best_param(self, p: P) -> Self {
        IterState { prev_best_param: self.best_param, best_param: Some(p), ..self }
    }

    /// The state with `g` as current gradient and the former one as previous.
    pub open spec fn with_grad(self, g: G) -> Self {
        IterState { prev_grad: self.grad, grad: Some(g), ..self }
    }

    /// The state with `h` as current Hessian and the former one as previous.
    pub open spec fn with_hessian(self, h: H) -> Self {
        IterState { prev_hessian: self.hessian, hessian: Some(h), ..self }
    }

    /// The state with `h` as current inverse Hessian and the former one as previous.
    pub open spec fn with_inv_hessian(self, h: H) -> Self {
        IterState { prev_inv_hessian: self.inv_hessian, inv_hessian: Some(h), ..self }
    }

    /// The state with `j` as current Jacobian and the former one as previous.
    pub open spec fn with_jacobian(self, j: J) -> Self {
        IterState { prev_jacobian: self.jacobian, jacobian: Some(j), ..self }
    }

    /// Whether the current cost counts as a new best.
    pub open spec fn spec_improves(self) -> bool {
        self.cost.spec_improves_on(self.best_cost)
    }

    /// `new` is a possible outcome of `update` on `old`: where the current cost
    /// improves on the best, the current cost becomes the best (shifting the former
    /// best), a copy of the current parameter vector, if any, becomes the best
    /// parameter vector (shifting the former one), and the best is marked as found
    /// at this iteration; otherwise nothing changes.
    pub open spec fn spec_updated(old: Self, new: Self) -> bool
        where P: Clone
    {
        if old.spec_improves() {
            let mid = old.with_best_cost(old.cost);
            &&& new.last_best_iter == old.iter
            &&& match old.param {
                Some(p) => {
                    &&& new.best_param is Some
                    &&& cloned(p, new.best_param->0)
                    &&& new == IterState {
                        last_best_iter: old.iter,
                        ..mid.with_best_param(new.best_param->0)
                    }
                },
                None => new == IterState { last_best_iter: old.iter, ..mid },
            }
        } else {
            new == old
        }
    }

    /// A fresh state: no artifacts, all costs positive infinity but the target
    /// cost, which is negative infinity, no iterations done, no limit on them, no
    /// counts, no time spent, not terminated.
    pub open spec fn is_fresh(self) -> bool {
        &&& self.param is None && self.prev_param is None
        &&& self.best_param is None && self.prev_best_param is None
        &&& self.cost == Cost::PosInfinity && self.prev_cost == Cost::PosInfinity
        &&& self.best_cost == Cost::PosInfinity && self.prev_best_cost == Cost::PosInfinity
        &&& self.target_cost == Cost::NegInfinity
        &&& self.grad is None && self.prev_grad is None
        &&& self.hessian is None && self.prev_hessian is None
        &&& self.inv_hessian is None && self.prev_inv_hessian is None
        &&& self.jacobian is None && self.prev_jacobian is None
        &&& self.population is None
        &&& self.iter == 0
        &&& self.last_best_iter == 0
        &&& self.max_iters == u64::MAX
        &&& self.counts@.len() == 0
        &&& self.time == Some(Elapsed { secs: 0, nanos: 0 })
        &&& self.termination_reason == TerminationReason::NotTerminated
    }

    /// Whether the best was found at the current iteration.
    pub open spec fn spec_is_best(self) -> bool {
        self.last_best_iter == self.iter
    }
}

impl<P, G, J, H> IterState<P, G, J, H> {
    /// A fresh state: no artifacts, all costs positive infinity but the target
    /// cost, which is negative infinity, no iterations done, no limit on them, no
    /// counts, no time spent, not terminated.
    pub fn new() -> (r: Self)
        ensures
            r.is_fresh(),
    {
        IterState {
            param: None,
            prev_param: None,
            best_param: None,
            prev_best_param: None,
            cost: Cost::PosInfinity,
            prev_cost: Cost::PosInfinity,
            best_cost: Cost::PosInfinity,
            prev_best_cost: Cost::PosInfinity,
            target_cost: Cost::NegInfinity,
            grad: None,
            prev_grad: None,
            hessian: None,
            prev_hessian: None,
            inv_hessian: None,
            prev_inv_hessian: None,
            jacobian: None,
            prev_jacobian: None,
            population: None,
            iter: 0,
            last_best_iter: 0,
            max_iters: u64::MAX,
            counts: Vec::new(),
            time: Some(Elapsed { secs: 0, nanos: 0 }),
            termination_reason: TerminationReason::NotTerminated,
        }
    }

    /// Sets the parameter vector, shifting the current one to the previous one.
    pub fn param(self, param: P) -> (r: Self)
        ensures
            r == self.with_param(param),
    {
        let mut s = self;
        s.prev_param = s.param;
        s.param = Some(param);
        s
    }

    /// Sets the best parameter vector, shifting the current best to the previous
    /// best.
    pub fn best_param(&mut self, param: P)
        ensures
            *final(self) == old(self).with_best_param(param),
    {
        self.prev_best_param = self.best_param.take();
        self.best_param = Some(param);
    }

    /// Sets the target cost.
    pub fn target_cost(self, target_cost: Cost) -> (r: Self)
        ensures
            r == (IterState { target_cost, ..self }),
    {
        let mut s = self;
        s.target_cost = target_cost;
        s
    }

    /// Sets the best cost, shifting the current best cost to the previous best.
    pub fn best_cost(&mut self, cost: Cost)
        ensures
            *final(self) == old(self).with_best_cost(cost),
    {
        self.prev_best_cost = self.best_cost;
        self.best_cost = cost;
    }

    /// Sets the population.
    pub fn population(self, population: Vec<(P, Cost)>) -> (r: Self)
        ensures
            r == (IterState { population: Some(population), ..self }),
    {
        let mut s = self;
        s.population = Some(population);
        s
    }

    /// Sets the maximum number of iterations.
    pub fn max_iters(self, iters: u64) -> (r: Self)
        ensures
            r == (IterState { max_iters: iters, ..self }),
    {
        let mut s = self;
        s.max_iters = iters;
        s
    }

    /// Marks the best as found at the current iteration.
    pub fn new_best(&mut self)
        ensures
            *final(self) == (IterState { last_best_iter: old(self).iter, ..*old(self) }),
    {
        self.last_best_iter = self.iter;
    }

    /// Sets the gradient, shifting the current one to the previous one.
    pub fn grad(self, grad: G) -> (r: Self)
        ensures
            r == self.with_grad(grad),
    {
        let mut s = self;
        s.prev_grad = s.grad;
        s.grad = Some(grad);
        s
    }

    /// Sets the Hessian, shifting the current one to the previous one.
    pub fn hessian(self, hessian: H) -> (r: Self)
        ensures
            r == self.with_hessian(hessian),
    {
        let mut s = self;
        s.prev_hessian = s.hessian;
        s.hessian = Some(hessian);
        s
    }

    /// Sets the inverse Hessian, shifting the current one to the previous one.
    pub fn inv_hessian(self, inv_hessian: H) -> (r: Self)
        ensures
            r == self.with_inv_hessian(inv_hessian),
    {
        let mut s = self;
        s.prev_inv_hessian = s.inv_hessian;
        s.inv_hessian = Some(inv_hessian);
        s
    }

    /// Sets the Jacobian, shifting the current one to the previous one.
    pub fn jacobian(self, jacobian: J) -> (r: Self)
        ensures
            r == self.with_jacobian(jacobian),
    {
        let mut s = self;
        s.prev_jacobian = s.jacobian;
        s.jacobian = Some(jacobian);
        s
    }

    /// Sets the cost, shifting the current cost to the previous cost.
    pub fn cost(self, cost: Cost) -> (r: Self)
        ensures
            r == self.with_cost(cost),
    {
        let mut s = self;
        s.prev_cost = s.cost;
        s.cost = cost;
        s
    }

    /// Advances the iteration counter by one.
    pub fn increment_iter(&mut self)
        requires
            old(self).iter < u64::MAX,
        ensures
            *final(self) == (IterState { iter: (old(self).iter + 1) as u64, ..*old(self) }),
    {
        self.iter = self.iter + 1;
    }

    /// Takes over every evaluation count that `problem` reports, overwriting the
    /// stored count of that operation; counts of other operations stay.
    pub fn func_counts<O>(&mut self, problem: &Problem<O>)
        ensures
            *final(self) == (IterState { counts: final(self).counts, ..*old(self) }),
            forall|name: Seq<char>|
                #[trigger] count_of(final(self).counts@, name) == match count_of(
                    problem.counts@,
                    name,
                ) {
                    Some(v) => Some(v),
                    None => count_of(old(self).counts@, name),
                },
    {
        let ghost start = self.counts@;
        let reported = &problem.counts;
        let mut i: usize = 0;
        while i < reported.len()
            invariant
                0 <= i <= reported@.len(),
                reported == &problem.counts,
                *self == (IterState { counts: self.counts, ..*old(self) }),
                start == old(self).counts@,
                forall|name: Seq<char>|
                    #[trigger] count_of(self.counts@, name) == match count_of(
                        reported@.subrange(0, i as int),
                        name,
                    ) {
                        Some(v) => Some(v),
                        None => count_of(start, name),
                    },
            decreases reported@.len() - i,
        {
            let ghost before = self.counts@;
            set_count(&mut self.counts, &reported[i].0, reported[i].1);
            proof {
                let pre = reported@.subrange(0, i as int);
                let post = reported@.subrange(0, i + 1);
                assert(post.drop_last() =~= pre);
                assert(post.last() == reported@[i as int]);
                assert forall|name: Seq<char>|
                    #[trigger] count_of(self.counts@, name) == match count_of(post, name) {
                        Some(v) => Some(v),
                        None => count_of(start, name),
                    } by {
                    assert(count_of(self.counts@, name) == if name == reported@[i as int].0@ {
                        Some(reported@[i as int].1)
                    } else {
                        count_of(before, name)
                    });
                }
            }
            i = i + 1;
        }
        proof {
            assert(reported@.subrange(0, reported@.len() as int) =~= reported@);
        }
    }

    /// The evaluation counts as (operation name, count) pairs.
    pub fn get_func_counts(&self) -> (r: &Vec<(String, u64)>)
        ensures
            r == &self.counts,
    {
        &self.counts
    }

    /// The current cost.
    pub fn get_cost(&self) -> (r: Cost)
        ensures
            r == self.cost,
    {
        self.cost
    }

    /// The previous cost.
    pub fn get_prev_cost(&self) -> (r: Cost)
        ensures
            r == self.prev_cost,
    {
        self.prev_cost
    }

    /// The best cost.
    pub fn get_best_cost(&self) -> (r: Cost)
        ensures
            r == self.best_cost,
    {
        self.best_cost
    }

    /// The previous best cost.
    pub fn get_prev_best_cost(&self) -> (r: Cost)
        ensures
            r == self.prev_best_cost,
    {
        self.prev_best_cost
    }

    /// The target cost.
    pub fn get_target_cost(&self) -> (r: Cost)
        ensures
            r == self.target_cost,
    {
        self.target_cost
    }

    /// The current iteration.
    pub fn get_iter(&self) -> (r: u64)
        ensures
            r == self.iter,
    {
        self.iter
    }

    /// The maximum number of iterations.
    pub fn get_max_iters(&self) -> (r: u64)
        ensures
            r == self.max_iters,
    {
        self.max_iters
    }

    /// The iteration at which the best was last found.
    pub fn get_last_best_iter(&self) -> (r: u64)
        ensures
            r == self.last_best_iter,
    {
        self.last_best_iter
    }

    /// The reason of termination.
    pub fn get_termination_reason(&self) -> (r: TerminationReason)
        ensures
            r == self.termination_reason,
    {
        self.termination_reason
    }

    /// The time required so far.
    pub fn get_time(&self) -> (r: Option<Elapsed>)
        ensures
            r == self.time,
    {
        self.time
    }

    /// A reference to the current parameter vector, if any.
    pub fn get_param(&self) -> (r: Option<&P>)
        ensures
            r is Some <==> self.param is Some,
            r is Some ==> *r->0 == self.param->0,
    {
        match &self.param {
            Some(v) => Some(v),
            None => None,
        }
    }

    /// A reference to the previous parameter vector, if any.
    pub fn get_prev_param(&self) -> (r: Option<&P>)
        ensures
            r is Some <==> self.prev_param is Some,
            r is Some ==> *r->0 == self.prev_param->0,
    {
        match &self.prev_param {
            Some(v) => Some(v),
            None => None,
        }
    }

    /// A reference to the best parameter vector, if any.
    pub fn get_best_param(&self) -> (r: Option<&P>)
        ensures
            r is Some <==> self.best_param is Some,
            r is Some ==> *r->0 == self.best_param->0,
    {
        match &self.best_param {
            Some(v) => Some(v),
            None => None,
        }
    }

    /// A reference to the previous best parameter vector, if any.
    pub fn get_prev_best_param(&self) -> (r: Option<&P>)
        ensures
            r is Some <==> self.prev_best_param is Some,
            r is Some ==> *r->0 == self.prev_best_param->0,
    {
        match &self.prev_best_param {
            Some(v) => Some(v),
            None => None,
        }
    }

    /// A reference to the current gradient, if any.
    pub fn get_grad(&self) -> (r: Option<&G>)
        ensures
            r is Some <==> self.grad is Some,
            r is Some ==> *r->0 == self.grad->0,
    {
        match &self.grad {
            Some(v) => Some(v),
            None => None,
        }
    }

    /// A reference to the previous gradient, if any.
    pub fn get_prev_grad(&self) -> (r: Option<&G>)
        ensures
            r is Some <==> self.prev_grad is Some,
            r is Some ==> *r->0 == self.prev_grad->0,
    {
        match &self.prev_grad {
            Some(v) => Some(v),
            None => None,
        }
    }

    /// A reference to the current Hessian, if any.
    pub fn get_hessian(&self) -> (r: Option<&H>)
        ensures
            r is Some <==> self.hessian is Some,
            r is Some ==> *r->0 == self.hessian->0,
    {
        match &self.hessian {
            Some(v) => Some(v),
            None => None,
        }
    }

    /// A reference to the previous Hessian, if any.
    pub fn get_prev_hessian(&self) -> (r: Option<&H>)
        ensures
            r is Some <==> self.prev_hessian is Some,
            r is Some ==> *r->0 == self.prev_hessian->0,
    {
        match &self.prev_hessian {
            Some(v) => Some(v),
            None => None,
        }
    }

    /// A reference to the current inverse Hessian, if any.
    pub fn get_inv_hessian(&self) -> (r: Option<&H>)
        ensures
            r is Some <==> self.inv_hessian is Some,
            r is Some ==> *r->0 == self.inv_hessian->0,
    {
        match &self.inv_hessian {
            Some(v) => Some(v),
            None => None,
        }
    }

    /// A reference to the previous inverse Hessian, if any.
    pub fn get_prev_inv_hessian(&self) -> (r: Option<&H>)
        ensures
            r is Some <==> self.prev_inv_hessian is Some,
            r is Some ==> *r->0 == self.prev_inv_hessian->0,
    {
        match &self.prev_inv_hessian {
            Some(v) => Some(v),
            None => None,
        }
    }

    /// A reference to the current Jacobian, if any.
    pub fn get_jacobian(&self) -> (r: Option<&J>)
        ensures
            r is Some <==> self.jacobian is Some,
            r is Some ==> *r->0 == self.jacobian->0,
    {
        match &self.jacobian {
            Some(v) => Some(v),
            None => None,
        }
    }

    /// A reference to the previous Jacobian, if any.
    pub fn get_prev_jacobian(&self) -> (r: Option<&J>)
        ensures
            r is Some <==> self.prev_jacobian is Some,
            r is Some ==> *r->0 == self.prev_jacobian->0,
    {
        match &self.prev_jacobian {
            Some(v) => Some(v),
            None => None,
        }
    }

    /// A reference to the population, if any.
    pub fn get_population(&self) -> (r: Option<&Vec<(P, Cost)>>)
        ensures
            r is Some <==> self.population is Some,
            r is Some ==> *r->0 == self.population->0,
    {
        match &self.population {
            Some(v) => Some(v),
            None => None,
        }
    }

    /// Moves the current parameter vector out, leaving none behind.
    pub fn take_param(&mut self) -> (r: Option<P>)
        ensures
            r == old(self).param,
            *final(self) == (IterState { param: None, ..*old(self) }),
    {
        self.param.take()
    }

    /// Moves the previous parameter vector out, leaving none behind.
    pub fn take_prev_param(&mut self) -> (r: Option<P>)
        ensures
            r == old(self).prev_param,
            *final(self) == (IterState { prev_param: None, ..*old(self) }),
    {
        self.prev_param.take()
    }

    /// Moves the best parameter vector out, leaving none behind.
    pub fn take_best_param(&mut self) -> (r: Option<P>)
        ensures
            r == old(self).best_param,
            *final(self) == (IterState { best_param: None, ..*old(self) }),
    {
        self.best_param.take()
    }

    /// Moves the previous best parameter vector out, leaving none behind.
    pub fn take_prev_best_param(&mut self) -> (r: Option<P>)
        ensures
            r == old(self).prev_best_param,
            *final(self) == (IterState { prev_best_param: None, ..*old(self) }),
    {
        self.prev_best_param.take()
    }

    /// Moves the current gradient out, leaving none behind.
    pub fn take_grad(&mut self) -> (r: Option<G>)
        ensures
            r == old(self).grad,
            *final(self) == (IterState { grad: None, ..*old(self) }),
    {
        self.grad.take()
    }

    /// Moves the previous gradient out, leaving none behind.
    pub fn take_prev_grad(&mut self) -> (r: Option<G>)
        ensures
            r == old(self).prev_grad,
            *final(self) == (IterState { prev_grad: None, ..*old(self) }),
    {
        self.prev_grad.take()
    }

    /// Moves the current Hessian out, leaving none behind.
    pub fn take_hessian(&mut self) -> (r: Option<H>)
        ensures
            r == old(self).hessian,
            *final(self) == (IterState { hessian: None, ..*old(self) }),
    {
        self.hessian.take()
    }

    /// Moves the previous Hessian out, leaving none behind.
    pub fn take_prev_hessian(&mut self) -> (r: Option<H>)
        ensures
            r == old(self).prev_hessian,
            *final(self) == (IterState { prev_hessian: None, ..*old(self) }),
    {
        self.prev_hessian.take()
    }

    /// Moves the current inverse Hessian out, leaving none behind.
    pub fn take_inv_hessian(&mut self) -> (r: Option<H>)
        ensures
            r == old(self).inv_hessian,
            *final(self) == (IterState { inv_hessian: None, ..*old(self) }),
    {
        self.inv_hessian.take()
    }

    /// Moves the previous inverse Hessian out, leaving none behind.
    pub fn take_prev_inv_hessian(&mut self) -> (r: Option<H>)
        ensures
            r == old(self).prev_inv_hessian,
            *final(self) == (IterState { prev_inv_hessian: None, ..*old(self) }),
    {
        self.prev_inv_hessian.take()
    }

    /// Moves the current Jacobian out, leaving none behind.
    pub fn take_jacobian(&mut self) -> (r: Option<J>)
        ensures
            r == old(self).jacobian,
            *final(self) == (IterState { jacobian: None, ..*old(self) }),
    {
        self.jacobian.take()
    }

    /// Moves the previous Jacobian out, leaving none behind.
    pub fn take_prev_jacobian(&mut self) -> (r: Option<J>)
        ensures
            r == old(self).prev_jacobian,
            *final(self) == (IterState { prev_jacobian: None, ..*old(self) }),
    {
        self.prev_jacobian.take()
    }

    /// Sets the reason of termination.
    pub fn termination_reason(self, reason: TerminationReason) -> (r: Self)
        ensures
            r == (IterState { termination_reason: reason, ..self }),
    {
        let mut s = self;
        s.termination_reason = reason;
        s
    }

    /// Sets the time required so far.
    pub fn time(&mut self, time: Option<Elapsed>)
        ensures
            *final(self) == (IterState { time, ..*old(self) }),
    {
        self.time = time;
    }

    /// Whether the best was found at the current iteration.
    pub fn is_best(&self) -> (r: bool)
        ensures
            r == self.spec_is_best(),
    {
        self.last_best_iter == self.iter
    }
}

impl<P: Clone, G, J, H> IterState<P, G, J, H> {
    /// Records the current cost and parameter vector as the best where the cost
    /// improves on the best cost: it is lower, or both are the same infinity.
    pub fn update(&mut self)
        ensures
            Self::spec_updated(*old(self), *final(self)),
    {
        if self.cost.improves_on(&self.best_cost) {
            match &self.param {
                Some(p) => {
                    let c = p.clone();
                    self.best_param(c);
                },
                None => {},
            }
            let c = self.cost;
            self.best_cost(c);
            self.new_best();
        }
    }
}

/// Setting a parameter vector twice, first `a` then `b`, leaves `b` as the current
/// and `a` as the previous parameter vector.
pub proof fn lemma_param_shift<P, G, J, H>(s: IterState<P, G, J, H>, a: P, b: P)
    ensures
        s.with_param(a).with_param(b).param == Some(b),
        s.with_param(a).with_param(b).prev_param == Some(a),
{
}

/// A second `update` with no change in between leaves the best cost and the
/// iteration of the last best unchanged. The best parameter vector either stays,
/// or both it and its replacement are copies of the same current parameter
/// vector; it stays where cloning a parameter vector gives an equal one.
pub proof fn lemma_update_twice<P: Clone, G, J, H>(
    s0: IterState<P, G, J, H>,
    s1: IterState<P, G, J, H>,
    s2: IterState<P, G, J, H>,
)
    requires
        IterState::spec_updated(s0, s1),
        IterState::spec_updated(s1, s2),
    ensures
        s2.best_cost == s1.best_cost,
        s2.last_best_iter == s1.last_best_iter,
        s2.best_param == s1.best_param || (s1.param is Some && s2.best_param is Some
            && s1.best_param is Some && cloned(s1.param->0, s2.best_param->0) && cloned(
            s1.param->0,
            s1.best_param->0,
        )),
        (forall|a: P, b: P| cloned(a, b) ==> a == b) ==> s2.best_param == s1.best_param,
{
}

/// A positive infinite cost is progress over a positive infinite best cost, so a
/// fresh state accepts it as a new best; it is never progress over a negative
/// infinite best cost, and then `update` changes nothing.
pub proof fn lemma_infinite_costs<P: Clone, G, J, H>(
    s: IterState<P, G, J, H>,
    t: IterState<P, G, J, H>,
)
    requires
        IterState::spec_updated(s, t),
        s.cost == Cost::PosInfinity,
    ensures
        Cost::PosInfinity.spec_improves_on(Cost::PosInfinity),
        !Cost::PosInfinity.spec_improves_on(Cost::NegInfinity),
        s.best_cost == Cost::PosInfinity ==> t.spec_is_best() && t.best_cost == Cost::PosInfinity,
        s.best_cost == Cost::NegInfinity ==> t == s,
{
}

} // verus!
