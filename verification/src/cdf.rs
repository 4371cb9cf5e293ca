//! The cumulative distribution table: exact prefix sums of a weight vector.
//!
//! A law is a vector of `u64` weights; the mass of outcome `i` is `law[i]`
//! and its probability is the rational `law[i] / total_mass(law)`. The
//! cumulative table stores the running totals, so its last entry is the
//! whole mass: the normalized table is recovered as `cdf[i] / total`.

use vstd::prelude::*;

verus! {

/// Mass of the outcomes strictly before index `n`: `law[0] + ... + law[n-1]`.
pub open spec fn mass_before(law: Seq<u64>, n: int) -> int
    decreases n,
{
    if n <= 0 {
        0
    } else {
        mass_before(law, n - 1) + law[n - 1]
    }
}

/// Total mass of the law.
pub open spec fn total_mass(law: Seq<u64>) -> int {
    mass_before(law, law.len() as int)
}

/// A usable law: at least one outcome, and strictly positive total mass.
pub open spec fn valid_law(law: Seq<u64>) -> bool {
    law.len() >= 1 && total_mass(law) >= 1
}

/// Prefix masses never decrease: the cumulative table is monotone.
pub proof fn lemma_mass_monotonic(law: Seq<u64>, i: int, j: int)
    requires
        i <= j,
    ensures
        mass_before(law, i) <= mass_before(law, j),
    decreases j - i,
{
    if i < j {
        lemma_mass_monotonic(law, i, j - 1);
    }
}

/// Prefix masses are nonnegative.
pub proof fn lemma_mass_nonnegative(law: Seq<u64>, n: int)
    ensures
        mass_before(law, n) >= 0,
{
    lemma_mass_monotonic(law, 0, if n >= 0 { n } else { 0 });
}

/// A prefix of zero weights carries no mass.
pub proof fn lemma_mass_all_zero(law: Seq<u64>, n: int)
    requires
        n <= law.len(),
        forall|j: int| 0 <= j < n ==> law[j] == 0,
    ensures
        mass_before(law, n) == 0,
    decreases n,
{
    if n > 0 {
        lemma_mass_all_zero(law, n - 1);
    }
}

/// No single weight exceeds the total mass.
pub proof fn lemma_element_le_total(law: Seq<u64>, i: int)
    requires
        0 <= i < law.len(),
    ensures
        law[i] <= total_mass(law),
{
    lemma_mass_nonnegative(law, i);
    lemma_mass_monotonic(law, i + 1, law.len() as int);
}

/// Raising one entry raises every prefix mass that covers it, by the same
/// amount, and no other.
pub proof fn lemma_mass_update(law: Seq<u64>, i: int, v: u64, n: int)
    requires
        0 <= i < law.len(),
        n <= law.len(),
    ensures
        i < n ==> mass_before(law.update(i, v), n) == mass_before(law, n) - law[i] + v,
        i >= n ==> mass_before(law.update(i, v), n) == mass_before(law, n),
    decreases n,
{
    if n > 0 {
        lemma_mass_update(law, i, v, n - 1);
    }
}

/// The law with every weight multiplied by `alpha`.
pub open spec fn scaled(law: Seq<u64>, alpha: u64) -> Seq<u64> {
    Seq::new(law.len(), |i: int| ((alpha as int * law[i] as int) as u64))
}

/// Scaling the weights scales every prefix mass by the same factor.
pub proof fn lemma_mass_scaled(law: Seq<u64>, alpha: u64, n: int)
    requires
        forall|i: int| 0 <= i < law.len() ==> alpha as int * law[i] as int <= u64::MAX,
        n <= law.len(),
    ensures
        mass_before(scaled(law, alpha), n) == alpha as int * mass_before(law, n),
    decreases n,
{
    if n <= 0 {
    } else {
        lemma_mass_scaled(law, alpha, n - 1);
        assert(scaled(law, alpha)[n - 1] == alpha as int * law[n - 1] as int);
        assert(alpha as int * (mass_before(law, n - 1) + law[n - 1]) == alpha as int * mass_before(
            law,
            n - 1,
        ) + alpha as int * law[n - 1]) by (nonlinear_arith);
    }
}

/// Scale invariance of the normalized table: multiplying every weight by
/// the same positive factor leaves each normalized entry — the rational
/// `mass_before(law, i) / total_mass(law)` — unchanged. Stated by cross
/// multiplication.
pub proof fn lemma_cdf_scale_invariant(law: Seq<u64>, alpha: u64, i: int)
    requires
        alpha >= 1,
        forall|j: int| 0 <= j < law.len() ==> alpha as int * law[j] as int <= u64::MAX,
        0 <= i <= law.len(),
    ensures
        mass_before(scaled(law, alpha), i) * total_mass(law) == mass_before(law, i) * total_mass(
            scaled(law, alpha),
        ),
{
    lemma_mass_scaled(law, alpha, i);
    lemma_mass_scaled(law, alpha, law.len() as int);
    let a = alpha as int;
    let m = mass_before(law, i);
    let t = total_mass(law);
    assert((a * m) * t == m * (a * t)) by (nonlinear_arith);
}

/// A zero-weight outcome leaves the cumulative table flat: its entry
/// repeats the one before it, or is 0 at the first position.
pub proof fn lemma_zero_weight_plateau(law: Seq<u64>, cdf: Seq<u64>, i: int)
    requires
        cdf.len() == law.len(),
        forall|j: int| 0 <= j < cdf.len() ==> cdf[j] == mass_before(law, j + 1),
        0 <= i < law.len(),
        law[i] == 0,
    ensures
        i == 0 ==> cdf[i] == 0,
        i > 0 ==> cdf[i] == cdf[i - 1],
{
    assert(mass_before(law, 0) == 0);
    assert(mass_before(law, i + 1) == mass_before(law, i) + law[i]);
}

/// Build the cumulative table of a weight vector.
///
/// Entry `i` is the exact mass of the outcomes up to and including `i`;
/// the last entry is the total mass, so the normalized table ends at 1
/// exactly: `cdf[k-1] / total == 1`.
pub fn cdf_from(law: &Vec<u64>) -> (cdf: Vec<u64>)
    requires
        law@.len() >= 1,
        total_mass(law@) <= u64::MAX,
    ensures
        cdf@.len() == law@.len(),
        forall|i: int| 0 <= i < cdf@.len() ==> cdf@[i] == mass_before(law@, i + 1),
        cdf@[cdf@.len() - 1] == total_mass(law@),
{
    let mut cdf: Vec<u64> = Vec::new();
    let mut acc: u64 = 0;
    let mut idx: usize = 0;
    while idx < law.len()
        invariant
            idx <= law@.len(),
            total_mass(law@) <= u64::MAX,
            acc == mass_before(law@, idx as int),
            cdf@.len() == idx,
            forall|i: int| 0 <= i < idx ==> cdf@[i] == mass_before(law@, i + 1),
        decreases law@.len() - idx,
    {
        proof {
            lemma_mass_monotonic(law@, idx as int + 1, law@.len() as int);
            lemma_mass_nonnegative(law@, idx as int);
        }
        acc = acc + law[idx];
        cdf.push(acc);
        idx = idx + 1;
    }
    cdf
}

} // verus!
