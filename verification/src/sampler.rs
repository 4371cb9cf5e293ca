//! The index sampler: from a uniform draw to an outcome index.
//!
//! A draw is a `u64` taken uniformly below the total mass. The index
//! returned is the one whose mass interval `[mass_before(law, i),
//! mass_before(law, i + 1))` contains the draw; `selects` states that
//! relation, and the lemmas here pin down its consequences: the index is
//! unique, outcomes of zero mass are never selected, and the set of draws
//! selecting outcome `i` has exactly `law[i]` elements.

use vstd::prelude::*;

use crate::cdf::{lemma_mass_monotonic, mass_before, total_mass, valid_law};

verus! {

/// The table is sorted, so a binary search over it is sound.
pub open spec fn nondecreasing(s: Seq<u64>) -> bool {
    forall|i: int, j: int| 0 <= i <= j < s.len() ==> s[i] <= s[j]
}

/// Draw `u` selects outcome `i`: `u` falls in the mass interval of `i`.
pub open spec fn selects(law: Seq<u64>, u: int, i: int) -> bool {
    &&& 0 <= i < law.len()
    &&& mass_before(law, i) <= u < mass_before(law, i + 1)
}

/// The cumulative table of a law is nondecreasing.
pub proof fn lemma_cdf_nondecreasing(law: Seq<u64>, cdf: Seq<u64>)
    requires
        cdf.len() == law.len(),
        forall|i: int| 0 <= i < cdf.len() ==> cdf[i] == mass_before(law, i + 1),
    ensures
        nondecreasing(cdf),
{
    assert forall|i: int, j: int| 0 <= i <= j < cdf.len() implies cdf[i] <= cdf[j] by {
        lemma_mass_monotonic(law, i + 1, j + 1);
    }
}

/// Smallest index whose table entry exceeds the draw, by binary search.
pub fn position(cdf: &Vec<u64>, u: u64) -> (i: usize)
    requires
        cdf@.len() >= 1,
        nondecreasing(cdf@),
        u < cdf@[cdf@.len() - 1],
    ensures
        i < cdf@.len(),
        u < cdf@[i as int],
        forall|j: int| 0 <= j < i ==> cdf@[j] <= u,
{
    let mut lo: usize = 0;
    let mut hi: usize = cdf.len() - 1;
    while lo != hi
        invariant
            lo <= hi < cdf@.len(),
            nondecreasing(cdf@),
            u < cdf@[hi as int],
            forall|j: int| 0 <= j < lo ==> cdf@[j] <= u,
        decreases hi - lo,
    {
        let mid = lo + (hi - lo) / 2;
        if cdf[mid] <= u {
            lo = mid + 1;
        } else {
            hi = mid;
        }
    }
    lo
}

/// A draw below the total selects exactly one index.
pub proof fn lemma_selects_unique(law: Seq<u64>, u: int, i: int, j: int)
    requires
        selects(law, u, i),
        selects(law, u, j),
    ensures
        i == j,
{
    if i < j {
        lemma_mass_monotonic(law, i + 1, j);
    } else if j < i {
        lemma_mass_monotonic(law, j + 1, i);
    }
}

/// An outcome of zero mass is never selected, whatever the draw.
pub proof fn lemma_zero_mass_never_selected(law: Seq<u64>, u: int, i: int)
    requires
        0 <= i < law.len(),
        law[i] == 0,
    ensures
        !selects(law, u, i),
{
}

/// With a single outcome, every draw selects index 0.
pub proof fn lemma_single_outcome(law: Seq<u64>, u: int, i: int)
    requires
        law.len() == 1,
        selects(law, u, i),
    ensures
        i == 0,
{
}

/// With all mass on one outcome, every draw selects that outcome.
pub proof fn lemma_all_mass_on_one(law: Seq<u64>, u: int, i: int, j: int)
    requires
        0 <= i < law.len(),
        forall|l: int| 0 <= l < law.len() && l != i ==> law[l] == 0,
        selects(law, u, j),
    ensures
        j == i,
{
    if j != i {
        lemma_zero_mass_never_selected(law, u, j);
    }
}

/// Sampling is a function of the law and the draw alone: two experiments
/// built from the same law, handed the same draw, select the same index.
/// A seeded source replayed identically therefore drives both through
/// identical index sequences.
pub proof fn lemma_sample_deterministic(law1: Seq<u64>, law2: Seq<u64>, u: int, i: int, j: int)
    requires
        law1 == law2,
        selects(law1, u, i),
        selects(law2, u, j),
    ensures
        i == j,
{
    lemma_selects_unique(law1, u, i, j);
}

/// The draws selecting outcome `i` form a set of exactly `law[i]` elements:
/// out of the `total_mass(law)` equally likely draws, outcome `i` is hit by
/// `law[i]` of them.
pub proof fn lemma_outcome_mass(law: Seq<u64>, i: int)
    requires
        0 <= i < law.len(),
    ensures
        Set::new(|u: int| selects(law, u, i)).finite(),
        Set::new(|u: int| selects(law, u, i)).len() == law[i],
{
    let s = Set::new(|u: int| selects(law, u, i));
    let lo = mass_before(law, i);
    let hi = mass_before(law, i + 1);
    assert(s =~= vstd::set_lib::set_int_range(lo, hi));
    vstd::set_lib::lemma_int_range(lo, hi);
}

} // verus!
