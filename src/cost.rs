//! Cost values: an integer extended by the two infinities.
use std::cmp::Ordering;
use vstd::prelude::*;

verus! {

/// A cost function value. Costs are ordered `NegInfinity < Finite(_) < PosInfinity`,
/// with finite values ordered as integers.
#[derive(Clone, Copy, Debug, PartialEq, Eq, Structural)]
pub enum Cost {
    NegInfinity,
    Finite(i64),
    PosInfinity,
}

/// Two costs are equal for result comparison when they are finite and differ by
/// less than this amount.
pub const COST_EPSILON: i64 = 1;

impl Cost {
    /// The rank of the cost's kind in the order of costs.
    pub open spec fn rank(self) -> int {
        match self {
            Cost::NegInfinity => 0,
            Cost::Finite(_) => 1,
            Cost::PosInfinity => 2,
        }
    }

    /// Strict order of costs.
    pub open spec fn spec_lt(self, other: Cost) -> bool {
        match (self, other) {
            (Cost::Finite(a), Cost::Finite(b)) => a < b,
            _ => self.rank() < other.rank(),
        }
    }

    /// Non-strict order of costs.
    pub open spec fn spec_le(self, other: Cost) -> bool {
        self.spec_lt(other) || self == other
    }

    pub open spec fn spec_is_infinite(self) -> bool {
        !(self is Finite)
    }

    /// Whether `self` counts as progress over the best cost `best`: it is strictly
    /// lower, or both are the same infinity.
    pub open spec fn spec_improves_on(self, best: Cost) -> bool {
        self.spec_lt(best) || (self.spec_is_infinite() && best.spec_is_infinite() && self == best)
    }

    /// `self < other`.
    pub fn less_than(&self, other: &Cost) -> (r: bool)
        ensures
            r == self.spec_lt(*other),
    {
        match (self, other) {
            (Cost::Finite(a), Cost::Finite(b)) => *a < *b,
            (Cost::NegInfinity, Cost::NegInfinity) => false,
            (Cost::NegInfinity, _) => true,
            (Cost::Finite(_), Cost::PosInfinity) => true,
            _ => false,
        }
    }

    /// `self <= other`.
    pub fn at_most(&self, other: &Cost) -> (r: bool)
        ensures
            r == self.spec_le(*other),
    {
        self.less_than(other) || *self == *other
    }

    /// Whether the cost is one of the two infinities.
    pub fn is_infinite(&self) -> (r: bool)
        ensures
            r == self.spec_is_infinite(),
    {
        !matches!(self, Cost::Finite(_))
    }

    /// Whether the cost is positive infinity, zero or above.
    pub fn is_sign_positive(&self) -> (r: bool)
        ensures
            r == match *self {
                Cost::NegInfinity => false,
                Cost::Finite(v) => v >= 0,
                Cost::PosInfinity => true,
            },
    {
        match self {
            Cost::NegInfinity => false,
            Cost::Finite(v) => *v >= 0,
            Cost::PosInfinity => true,
        }
    }

    /// Whether two costs count as equal when results are compared: both are finite
    /// and they differ by less than `COST_EPSILON`, or both are the same infinity.
    pub open spec fn spec_within_epsilon(self, other: Cost) -> bool {
        match (self, other) {
            (Cost::Finite(a), Cost::Finite(b)) => -COST_EPSILON < a - b < COST_EPSILON,
            (Cost::NegInfinity, Cost::NegInfinity) => true,
            (Cost::PosInfinity, Cost::PosInfinity) => true,
            _ => false,
        }
    }

    /// The ordering of two results by their costs: `Equal` within epsilon, else by
    /// the sign of `self - other`. The order is total.
    pub open spec fn spec_compare(self, other: Cost) -> Ordering {
        if self.spec_within_epsilon(other) {
            Ordering::Equal
        } else if other.spec_lt(self) {
            Ordering::Greater
        } else {
            Ordering::Less
        }
    }

    /// Whether `self` and `other` are equal up to `COST_EPSILON`.
    pub fn within_epsilon(&self, other: &Cost) -> (r: bool)
        ensures
            r == self.spec_within_epsilon(*other),
    {
        match (self, other) {
            (Cost::Finite(a), Cost::Finite(b)) => {
                let d: i128 = (*a as i128) - (*b as i128);
                -(COST_EPSILON as i128) < d && d < (COST_EPSILON as i128)
            },
            (Cost::NegInfinity, Cost::NegInfinity) => true,
            (Cost::PosInfinity, Cost::PosInfinity) => true,
            _ => false,
        }
    }

    /// Orders `self` against `other` as results are ordered by cost.
    pub fn compare(&self, other: &Cost) -> (r: Ordering)
        ensures
            r == self.spec_compare(*other),
    {
        if self.within_epsilon(other) {
            Ordering::Equal
        } else if other.less_than(self) {
            Ordering::Greater
        } else {
            Ordering::Less
        }
    }

    /// Whether `self` counts as progress over the best cost `best`.
    pub fn improves_on(&self, best: &Cost) -> (r: bool)
        ensures
            r == self.spec_improves_on(*best),
    {
        self.less_than(best) || (self.is_infinite() && best.is_infinite()
            && self.is_sign_positive() == best.is_sign_positive())
    }
}

} // verus!
