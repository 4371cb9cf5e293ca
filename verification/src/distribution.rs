//! A discrete finite distribution: a weight vector and its cumulative table.

use vstd::prelude::*;

use crate::ExperimentError;
use crate::cdf::{cdf_from, mass_before, total_mass, valid_law};
use crate::sampler::{lemma_cdf_nondecreasing, position, selects};
use crate::source::{UniformSource, draw_below};

verus! {

/// A probability law over indices `0 .. k`, held as the weights themselves
/// and their cumulative table. Immutable once constructed; outcome `i` has
/// probability `law[i] / total`, where `total` is the last table entry.
#[derive(Debug)]
pub struct DiscreteFiniteDistribution {
    /// The weights the distribution was built from, kept for introspection.
    pub law: Vec<u64>,
    /// The cumulative table: entry `i` is the mass of outcomes `0 ..= i`.
    pub cdf: Vec<u64>,
}

impl DiscreteFiniteDistribution {
    /// The table matches the law, and the law carries mass.
    pub open spec fn wf(&self) -> bool {
        &&& valid_law(self.law@)
        &&& total_mass(self.law@) <= u64::MAX
        &&& self.cdf@.len() == self.law@.len()
        &&& forall|i: int| 0 <= i < self.cdf@.len() ==> self.cdf@[i] == mass_before(self.law@, i + 1)
    }

    /// Number of outcomes.
    pub open spec fn spec_len(&self) -> int {
        self.law@.len() as int
    }

    /// Build a distribution from a weight vector.
    ///
    /// Fails exactly on an empty vector (no sample space) and on an
    /// all-zero vector (no mass); any other vector yields a well-formed
    /// distribution holding a copy of it.
    pub fn new(law: &Vec<u64>) -> (r: Result<Self, ExperimentError>)
        requires
            total_mass(law@) <= u64::MAX,
        ensures
            law@.len() == 0 ==> r == Err::<Self, ExperimentError>(ExperimentError::EmptySampleSpace),
            law@.len() >= 1 && total_mass(law@) == 0 ==> r == Err::<Self, ExperimentError>(
                ExperimentError::InvalidLaw,
            ),
            law@.len() >= 1 && total_mass(law@) >= 1 ==> (r matches Ok(d) && d.wf() && d.law@
                == law@),
    {
        if law.len() == 0 {
            return Err(ExperimentError::EmptySampleSpace);
        }
        let cdf = cdf_from(law);
        if cdf[cdf.len() - 1] == 0 {
            return Err(ExperimentError::InvalidLaw);
        }
        let law_copy = law.clone();
        proof {
            assert(law_copy@ =~= law@);
        }
        Ok(DiscreteFiniteDistribution { law: law_copy, cdf })
    }

    /// The index whose mass interval contains the draw `u`: the smallest
    /// `i` with `u < cdf[i]`.
    pub fn index_for(&self, u: u64) -> (i: usize)
        requires
            self.wf(),
            u < total_mass(self.law@),
        ensures
            selects(self.law@, u as int, i as int),
    {
        proof {
            lemma_cdf_nondecreasing(self.law@, self.cdf@);
        }
        let i = position(&self.cdf, u);
        proof {
            if i > 0 {
                assert(self.cdf@[i - 1] == mass_before(self.law@, i as int));
            }
        }
        i
    }

    /// One draw from the distribution: an index below `len`, never one of
    /// zero weight, whatever the source hands back.
    pub fn sample<S: UniformSource>(&self, source: &mut S) -> (i: usize)
        requires
            self.wf(),
        ensures
            0 <= i < self.spec_len(),
            self.law@[i as int] > 0,
    {
        let total = self.cdf[self.cdf.len() - 1];
        let u = draw_below(source, total);
        self.index_for(u)
    }
}

} // verus!
