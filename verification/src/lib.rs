//! Simulation of random experiments over a finite discrete sample space.
//!
//! A probability law is given as a vector of nonnegative integer weights;
//! outcomes are drawn with probability proportional to their weight. The
//! cumulative table, the index sampler and the surrounding adapters are
//! verified: construction errors are characterized exactly, and the index
//! returned for a given uniform draw is pinned down by its contract.

use vstd::prelude::*;

pub mod cdf;
pub mod distribution;
pub mod experiment;
pub mod parsing;
pub mod sampler;
pub mod source;

verus! {

/// A construction-time failure of a distribution or an experiment.
#[derive(Clone, Copy, Debug, PartialEq, Eq, Structural)]
pub enum ExperimentError {
    /// The sample space is empty.
    EmptySampleSpace,
    /// The sample space and the weight vector differ in length.
    ShapeMismatch,
    /// The weights carry no mass at all.
    InvalidLaw,
}

} // verus!
