//! Division with rounding.

use vstd::prelude::*;

verus! {

/// The integer nearest to `n / d`; halfway cases go up.
#[verifier::inline]
pub open spec fn nearest(n: int, d: int) -> int {
    (2 * n + d) / (2 * d)
}

/// What rounds to `q` lies at most half a step below it and less than half a
/// step above it.
pub proof fn nearest_is_within_half(n: int, d: int)
    requires
        d > 0,
    ensures
        2 * (d * nearest(n, d)) - d <= 2 * n < 2 * (d * nearest(n, d)) + d,
{
    let q = nearest(n, d);
    vstd::arithmetic::div_mod::lemma_fundamental_div_mod(2 * n + d, 2 * d);
    assert((2 * d) * q == 2 * (d * q)) by (nonlinear_arith);
}

} // verus!
