//! Fuzzy input variables: membership functions whose alpha-level cuts
//! supply the interval bounds that the optimizers search over.

use vstd::prelude::*;

use crate::scalar::Scalar;

verus! {

/// A fuzzy variable: a membership function over the scalar line, queried
/// through its support and its alpha-level cuts. Consumers may implement
/// further shapes; the library ships the triangular and the trapezoidal
/// one.
pub trait FuzzyVariable<S: Scalar> {
    /// The outermost interval of nonzero membership.
    fn get_support(&self) -> (S, S);

    /// The membership degree of `value`.
    fn membership_of(&self, value: S) -> S;

    /// The interval of values whose membership is at least `alpha_level`.
    fn alpha_level_support(&self, alpha_level: S) -> (S, S);
}

/// The triangular membership function: zero at `lower_value` and
/// `upper_value`, one at `middle_value`, linear between.
pub struct FuzzyTriangular<S> {
    pub lower_value: S,
    pub middle_value: S,
    pub upper_value: S,
}

impl<S: Scalar> FuzzyTriangular<S> {
    pub fn new(lower: S, middle: S, upper: S) -> (r: Self)
        ensures
            r.lower_value == lower,
            r.middle_value == middle,
            r.upper_value == upper,
    {
        FuzzyTriangular { lower_value: lower, middle_value: middle, upper_value: upper }
    }
}

impl<S: Scalar> FuzzyVariable<S> for FuzzyTriangular<S> {
    fn get_support(&self) -> (S, S) {
        (self.lower_value, self.upper_value)
    }

    fn membership_of(&self, value: S) -> S {
        let lower = self.lower_value;
        let middle = self.middle_value;
        let upper = self.upper_value;
        if value.eq_val(middle) {
            S::one()
        } else if lower.le(value) && value.lt(middle) {
            value.minus(lower).over(middle.minus(lower))
        } else if middle.le(value) && value.lt(lower) {
            S::one().minus(value.minus(middle).over(upper.minus(middle)))
        } else {
            S::zero()
        }
    }

    fn alpha_level_support(&self, alpha_level: S) -> (S, S) {
        (
            self.lower_value.plus(alpha_level.times(self.middle_value.minus(self.lower_value))),
            self.upper_value.minus(alpha_level.times(self.upper_value.minus(self.middle_value))),
        )
    }
}

/// The trapezoidal membership function: zero outside `[lower_value,
/// upper_value]`, one on `[lower_middle_value, upper_middle_value]`,
/// linear on the flanks.
pub struct FuzzyTrapezoidal<S> {
    pub lower_value: S,
    pub lower_middle_value: S,
    pub upper_middle_value: S,
    pub upper_value: S,
}

impl<S: Scalar> FuzzyTrapezoidal<S> {
    pub fn new(lower: S, middle_lower: S, middle_upper: S, upper: S) -> (r: Self)
        ensures
            r.lower_value == lower,
            r.lower_middle_value == middle_lower,
            r.upper_middle_value == middle_upper,
            r.upper_value == upper,
    {
        FuzzyTrapezoidal {
            lower_value: lower,
            lower_middle_value: middle_lower,
            upper_middle_value: middle_upper,
            upper_value: upper,
        }
    }
}

impl<S: Scalar> FuzzyVariable<S> for FuzzyTrapezoidal<S> {
    fn get_support(&self) -> (S, S) {
        (self.lower_value, self.upper_value)
    }

    fn membership_of(&self, value: S) -> S {
        let lower = self.lower_value;
        let lmiddle = self.lower_middle_value;
        let umiddle = self.upper_middle_value;
        let upper = self.upper_value;
        if lmiddle.le(value) && value.le(umiddle) {
            S::one()
        } else if lower.le(value) && value.lt(lmiddle) {
            value.minus(lower).over(lmiddle.minus(lower))
        } else if umiddle.le(value) && value.lt(lower) {
            S::one().minus(value.minus(umiddle).over(upper.minus(umiddle)))
        } else {
            S::zero()
        }
    }

    fn alpha_level_support(&self, alpha_level: S) -> (S, S) {
        (
            alpha_level.times(self.lower_middle_value.minus(self.lower_value)).plus(
                self.lower_value,
            ),
            S::one().minus(alpha_level).times(
                self.upper_value.minus(self.upper_middle_value),
            ).plus(self.upper_middle_value),
        )
    }
}

} // verus!
