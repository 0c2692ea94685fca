//! The closed-form estimate of the chance that one pass of the worker
//! finds a valid proof of space-time.
//!
//! The estimate is deliberately an approximation of the exact binomial
//! tail: a pass of `n` nonces succeeds with probability
//! `1 - (1 - p0)^(n/16)`, where `p0` is the calibration constant for a
//! sixteen-nonce baseline.  Probabilities are carried in parts per
//! million, so `p0 = 0.0124` is `12400`.

use vstd::prelude::*;

verus! {

/// One million: the fixed-point scale, parts per million.
pub const PPM_SCALE: u64 = 1000000;

/// Calibration: the success probability of a sixteen-nonce pass, in
/// parts per million.
pub const BASE_PROBABILITY_PPM: u64 = 12400;

/// The worker accepts nonce counts in multiples of this granularity.
pub const NONCE_GRANULARITY: u32 = 16;

/// The miss probability of `groups` sixteen-nonce groups, in parts per
/// million: `(1 - p0)^groups`, each multiplication rounded down.
pub open spec fn spec_miss_ppm(groups: nat) -> nat
    decreases groups,
{
    if groups == 0 {
        1000000
    } else {
        spec_miss_ppm((groups - 1) as nat) * 987600 / 1000000
    }
}

/// The success probability of a pass of `nonces` nonces, in parts per
/// million.
pub open spec fn spec_probability_ppm(nonces: u32) -> nat {
    (1000000 - spec_miss_ppm((nonces / 16) as nat)) as nat
}

/// A miss probability never exceeds one.
pub proof fn lemma_miss_ppm_at_most_one(groups: nat)
    ensures
        spec_miss_ppm(groups) <= 1000000,
    decreases groups,
{
    if groups > 0 {
        let prev = spec_miss_ppm((groups - 1) as nat);
        lemma_miss_ppm_at_most_one((groups - 1) as nat);
        assert(prev * 987600 / 1000000 <= 1000000) by (nonlinear_arith)
            requires
                prev <= 1000000,
        ;
    }
}

/// More groups never raise the miss probability.
pub proof fn lemma_miss_ppm_nonincreasing(g1: nat, g2: nat)
    requires
        g1 <= g2,
    ensures
        spec_miss_ppm(g2) <= spec_miss_ppm(g1),
    decreases g2,
{
    if g1 < g2 {
        let prev = spec_miss_ppm((g2 - 1) as nat);
        lemma_miss_ppm_nonincreasing(g1, (g2 - 1) as nat);
        assert(prev * 987600 / 1000000 <= prev) by (nonlinear_arith)
            requires
                prev >= 0,
        ;
    }
}

/// The success estimate is monotonically non-decreasing in the nonce
/// count.
pub proof fn lemma_probability_monotonic(n1: u32, n2: u32)
    requires
        n1 <= n2,
    ensures
        spec_probability_ppm(n1) <= spec_probability_ppm(n2),
{
    assert(n1 / 16 <= n2 / 16);
    lemma_miss_ppm_nonincreasing((n1 / 16) as nat, (n2 / 16) as nat);
    lemma_miss_ppm_at_most_one((n1 / 16) as nat);
    lemma_miss_ppm_at_most_one((n2 / 16) as nat);
}

/// The success estimate for a pass of `nonces` nonces, in parts per
/// million.  The nonce count comes in multiples of the worker's
/// granularity, where the closed form has an integral exponent.
pub fn calculate_post_probability_ppm(nonces: u32) -> (r: u64)
    requires
        nonces % 16 == 0,
    ensures
        r as nat == spec_probability_ppm(nonces),
        r <= 1000000,
{
    let groups: u32 = nonces / 16;
    let mut miss: u64 = 1000000;
    let mut k: u32 = 0;
    while k < groups
        invariant
            0 <= k <= groups,
            miss as nat == spec_miss_ppm(k as nat),
            miss <= 1000000,
        decreases groups - k,
    {
        let next: u64 = miss * 987600 / 1000000;
        assert(next <= 1000000 && next as nat == spec_miss_ppm((k + 1) as nat))
            by (nonlinear_arith)
            requires
                miss <= 1000000,
                next == miss * 987600 / 1000000,
                spec_miss_ppm((k + 1) as nat) == spec_miss_ppm(k as nat) * 987600 / 1000000,
                miss as nat == spec_miss_ppm(k as nat),
        ;
        miss = next;
        k = k + 1;
    }
    proof {
        lemma_miss_ppm_at_most_one(groups as nat);
    }
    1000000 - miss
}

} // verus!
