use vstd::prelude::*;

verus! {

/// The largest value that the bound on the shape parameters may take.
pub const PARAM_LIMIT: u32 = 50;

/// The number of samples per unit of `a`, `2π / dt` with `dt = 0.001`, is
/// taken as `SAMPLES_PER_A_NUM / SAMPLES_PER_A_DEN`: 6283.185307179586. For
/// every `a` up to `PARAM_LIMIT` this fraction and the true `2000·π` give
/// the same whole number of samples.
pub const SAMPLES_PER_A_NUM: u64 = 6283185307179586;

/// See `SAMPLES_PER_A_NUM`.
pub const SAMPLES_PER_A_DEN: u64 = 1000000000000;

/// The number of points sampled on the domain `[0, 2π·a)` at step `0.001`:
/// `floor(2π·a / 0.001)`.
pub open spec fn samples_for(a: int) -> int {
    (a * SAMPLES_PER_A_NUM as int) / (SAMPLES_PER_A_DEN as int)
}

/// How many points the sampler draws for the shape parameter `a`. The step
/// stays fixed, so the count grows with `a` and does not depend on `b` or `c`.
pub fn sample_count(a: u32) -> (n: usize)
    requires
        1 <= a <= PARAM_LIMIT,
    ensures
        n == samples_for(a as int),
{
    assert(a as u64 * SAMPLES_PER_A_NUM <= 50 * SAMPLES_PER_A_NUM) by (nonlinear_arith)
        requires
            a <= 50,
    ;
    let scaled: u64 = a as u64 * SAMPLES_PER_A_NUM;
    let n: u64 = scaled / SAMPLES_PER_A_DEN;
    assert(n <= (50 * SAMPLES_PER_A_NUM as int) / (SAMPLES_PER_A_DEN as int)) by {
        vstd::arithmetic::div_mod::lemma_div_is_ordered(
            scaled as int,
            50 * SAMPLES_PER_A_NUM as int,
            SAMPLES_PER_A_DEN as int,
        );
    }
    n as usize
}

} // verus!
