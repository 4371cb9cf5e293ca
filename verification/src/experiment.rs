//! A labeled random experiment: a sample space bound to a distribution.

use vstd::pervasive::VecAdditionalExecFns;
use vstd::pervasive::cloned;
use vstd::prelude::*;

use crate::ExperimentError;
use crate::cdf::{lemma_element_le_total, lemma_mass_update, total_mass};
use crate::distribution::DiscreteFiniteDistribution;
use crate::source::UniformSource;

verus! {

/// An ordered sample space `omega` and a distribution over its indices,
/// of the same length. Immutable once constructed; a draw picks an index
/// from the distribution and hands back a copy of the label there.
#[derive(Debug)]
pub struct DiscreteFiniteRandomExperiment<T> {
    /// The sample space: one label per outcome, in user order.
    pub omega: Vec<T>,
    /// The law over the indices of `omega`.
    pub distribution: DiscreteFiniteDistribution,
}

impl<T> DiscreteFiniteRandomExperiment<T> {
    /// The distribution is well formed and matches the sample space.
    pub open spec fn wf(&self) -> bool {
        &&& self.distribution.wf()
        &&& self.omega@.len() == self.distribution.law@.len()
    }

    /// Build an experiment from a sample space and a weight vector.
    ///
    /// Fails exactly when the lengths differ, when both are empty, or
    /// when the weights carry no mass; otherwise the experiment holds
    /// `omega` as given and a copy of the weights.
    pub fn new(omega: Vec<T>, law: &Vec<u64>) -> (r: Result<Self, ExperimentError>)
        requires
            total_mass(law@) <= u64::MAX,
        ensures
            omega@.len() != law@.len() ==> r == Err::<Self, ExperimentError>(
                ExperimentError::ShapeMismatch,
            ),
            omega@.len() == law@.len() && law@.len() == 0 ==> r == Err::<Self, ExperimentError>(
                ExperimentError::EmptySampleSpace,
            ),
            omega@.len() == law@.len() && law@.len() >= 1 && total_mass(law@) == 0 ==> r
                == Err::<Self, ExperimentError>(ExperimentError::InvalidLaw),
            omega@.len() == law@.len() && law@.len() >= 1 && total_mass(law@) >= 1 ==> (r matches
                Ok(e) && e.wf() && e.omega@ == omega@ && e.distribution.law@ == law@),
    {
        if omega.len() != law.len() {
            return Err(ExperimentError::ShapeMismatch);
        }
        match DiscreteFiniteDistribution::new(law) {
            Ok(d) => Ok(DiscreteFiniteRandomExperiment { omega, distribution: d }),
            Err(e) => Err(e),
        }
    }

    /// Number of draws landing on each index, over `n` independent draws.
    ///
    /// The counts are in sample-space order, sum to `n` exactly, and an
    /// outcome of zero weight is never drawn, so its count is zero —
    /// whatever the source hands back.
    pub fn simulate_counts<S: UniformSource>(&self, n: usize, source: &mut S) -> (counts: Vec<u64>)
        requires
            self.wf(),
        ensures
            counts@.len() == self.omega@.len(),
            total_mass(counts@) == n,
            forall|i: int| 0 <= i < counts@.len() && self.distribution.law@[i] == 0
                ==> counts@[i] == 0,
    {
        let k = self.omega.len();
        let mut counts: Vec<u64> = Vec::new();
        let mut i: usize = 0;
        while i < k
            invariant
                i <= k,
                counts@.len() == i,
                forall|j: int| 0 <= j < i ==> counts@[j] == 0,
            decreases k - i,
        {
            counts.push(0);
            i = i + 1;
        }
        proof {
            crate::cdf::lemma_mass_all_zero(counts@, counts@.len() as int);
        }
        let mut done: usize = 0;
        while done < n
            invariant
                self.wf(),
                counts@.len() == self.omega@.len(),
                done <= n,
                total_mass(counts@) == done,
                forall|j: int| 0 <= j < counts@.len() && self.distribution.law@[j] == 0
                    ==> counts@[j] == 0,
            decreases n - done,
        {
            let idx = self.distribution.sample(source);
            let c = counts[idx];
            proof {
                lemma_element_le_total(counts@, idx as int);
                lemma_mass_update(counts@, idx as int, (c + 1) as u64, counts@.len() as int);
            }
            counts.set(idx, c + 1);
            done = done + 1;
        }
        counts
    }
}

impl<T: Clone> DiscreteFiniteRandomExperiment<T> {
    /// `x` is a possible draw from this experiment: a copy of a label
    /// whose outcome has positive weight.
    pub open spec fn drawn_from(&self, x: T) -> bool {
        exists|i: int|
            0 <= i < self.omega@.len() && self.distribution.law@[i] > 0 && cloned(
                self.omega@[i],
                x,
            )
    }

    /// One independent draw: a copy of a label whose outcome has positive
    /// weight, whatever the source hands back.
    pub fn sample<S: UniformSource>(&self, source: &mut S) -> (r: T)
        requires
            self.wf(),
        ensures
            self.drawn_from(r),
    {
        let i = self.distribution.sample(source);
        let label = self.omega[i].clone();
        proof {
            assert(cloned(self.omega@[i as int], label));
        }
        label
    }

    /// `n` independent draws in a row, in draw order: each one a copy of
    /// a label whose outcome has positive weight.
    pub fn sample_many<S: UniformSource>(&self, n: usize, source: &mut S) -> (r: Vec<T>)
        requires
            self.wf(),
        ensures
            r@.len() == n,
            forall|j: int| 0 <= j < n ==> #[trigger] self.drawn_from(r@[j]),
    {
        let mut r: Vec<T> = Vec::new();
        let mut done: usize = 0;
        while done < n
            invariant
                self.wf(),
                done <= n,
                r@.len() == done,
                forall|j: int| 0 <= j < done ==> #[trigger] self.drawn_from(r@[j]),
            decreases n - done,
        {
            let label = self.sample(source);
            r.push(label);
            proof {
                assert(r@[done as int] == label);
                assert(self.drawn_from(r@[done as int]));
            }
            done = done + 1;
        }
        r
    }
}

} // verus!
