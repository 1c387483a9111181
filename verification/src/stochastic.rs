//! The empirical distribution of a sorted batch of Monte-Carlo samples:
//! cumulative steps, quantiles and the mean. Drawing the samples is the
//! consumer's business; this type only evaluates what was drawn.

use vstd::prelude::*;

use crate::scalar::Scalar;

verus! {

/// An empirical cumulative distribution function over a batch of samples,
/// expected in ascending order.
#[derive(Debug)]
pub struct ExperimentalCumulativeDistributionFunction<S> {
    pub samples: Vec<S>,
}

impl<S: Scalar> ExperimentalCumulativeDistributionFunction<S> {
    pub fn new(samples: Vec<S>) -> (r: Self)
        ensures
            r.samples == samples,
    {
        ExperimentalCumulativeDistributionFunction { samples }
    }

    pub fn get_samples(&self) -> (r: &Vec<S>)
        ensures
            r == &self.samples,
    {
        &self.samples
    }

    /// The staircase of the distribution: each sample paired with the
    /// cumulative probability step it completes.
    pub fn get_samples_cumulative(&self) -> (r: Vec<[S; 2]>)
        ensures
            r@.len() == self.samples@.len(),
    {
        let n: usize = self.samples.len();
        let step = S::one().over(S::from_usize(n));
        let mut res: Vec<[S; 2]> = Vec::new();
        for i in 0..n
            invariant
                self.samples@.len() == n,
                res@.len() == i,
        {
            let current_step = step.times(S::from_usize(i + 1));
            res.push([self.samples[i], current_step]);
        }
        res
    }

    /// The quantile of the distribution at probability `quant`: the first
    /// sample below the first step, the last sample above the last one,
    /// and linear interpolation between neighbouring samples in between.
    pub fn quantile(&self, quant: S) -> S
        requires
            self.samples@.len() >= 1,
    {
        let step = S::one().over(S::from_usize(self.samples.len()));
        let amount: usize = self.samples.len();
        let approx_index = quant.over(step).floor_to_usize();
        if approx_index == 0 {
            self.samples[0]
        } else if approx_index < amount - 1 {
            let approx_ind = S::from_usize(approx_index);
            self.samples[approx_index].plus(
                step.over(
                    self.samples[approx_index + 1].minus(self.samples[approx_index]),
                ).times(quant.minus(step.times(approx_ind))),
            )
        } else {
            self.samples[self.samples.len() - 1]
        }
    }

    /// The arithmetic mean of the samples.
    pub fn mean(&self) -> S {
        let mut sum = S::zero();
        let n: usize = self.samples.len();
        for i in 0..n
            invariant
                self.samples@.len() == n,
        {
            sum = sum.plus(self.samples[i]);
        }
        sum.over(S::from_usize(n))
    }
}

} // verus!
