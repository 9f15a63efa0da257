//! Facts about truncating fixed-point arithmetic: multiplying by a
//! factor on a bounded scale and dividing by the scale.

use vstd::prelude::*;

verus! {

/// Scaling by a factor no larger than the scale never raises a value:
/// `a * b / k <= b` when `a` lies on the scale `k`.
pub proof fn lemma_mul_div_le(a: int, b: int, k: int)
    requires
        0 <= a <= k,
        b >= 0,
        k > 0,
    ensures
        0 <= a * b / k <= b,
{
    assert(a * b <= k * b) by (nonlinear_arith)
        requires
            0 <= a <= k && b >= 0,
    ;
    assert(a * b >= 0) by (nonlinear_arith)
        requires
            a >= 0 && b >= 0,
    ;
    assert(a * b / k <= k * b / k) by (nonlinear_arith)
        requires
            a * b <= k * b && k > 0,
    ;
    assert(k * b / k == b) by (nonlinear_arith)
        requires
            k > 0,
    ;
    assert(a * b / k >= 0) by (nonlinear_arith)
        requires
            a * b >= 0 && k > 0,
    ;
}

/// Truncating scaling is monotone in the value being scaled.
pub proof fn lemma_mul_div_monotone_left(a1: int, a2: int, b: int, k: int)
    requires
        a1 <= a2,
        b >= 0,
        k > 0,
    ensures
        a1 * b / k <= a2 * b / k,
{
    assert(a1 * b <= a2 * b) by (nonlinear_arith)
        requires
            a1 <= a2 && b >= 0,
    ;
    assert(a1 * b / k <= a2 * b / k) by (nonlinear_arith)
        requires
            a1 * b <= a2 * b && k > 0,
    ;
}

/// Truncating scaling is monotone in the factor.
pub proof fn lemma_mul_div_monotone_right(a: int, b1: int, b2: int, k: int)
    requires
        a >= 0,
        b1 <= b2,
        k > 0,
    ensures
        a * b1 / k <= a * b2 / k,
{
    assert(a * b1 <= a * b2) by (nonlinear_arith)
        requires
            a >= 0 && b1 <= b2,
    ;
    assert(a * b1 / k <= a * b2 / k) by (nonlinear_arith)
        requires
            a * b1 <= a * b2 && k > 0,
    ;
}

/// Truncating division keeps a value non-negative.
pub proof fn lemma_div_nonneg(a: int, k: int)
    requires
        a >= 0,
        k > 0,
    ensures
        a / k >= 0,
{
    assert(a / k >= 0) by (nonlinear_arith)
        requires
            a >= 0 && k > 0,
    ;
}

/// A product of bounded non-negative values is bounded by the product
/// of the bounds.
pub proof fn lemma_mul_le(a: int, amax: int, b: int, bmax: int)
    requires
        0 <= a <= amax,
        0 <= b <= bmax,
    ensures
        0 <= a * b <= amax * bmax,
{
    assert(0 <= a * b <= amax * bmax) by (nonlinear_arith)
        requires
            0 <= a <= amax && 0 <= b <= bmax,
    ;
}

/// Truncating division preserves order.
pub proof fn lemma_div_ordered(a: int, b: int, k: int)
    requires
        a <= b,
        k > 0,
    ensures
        a / k <= b / k,
{
    assert(a / k <= b / k) by (nonlinear_arith)
        requires
            a <= b && k > 0,
    ;
}

/// Scaling a whole multiple of the scale back down is exact.
pub proof fn lemma_mul_div_exact(b: int, k: int)
    requires
        k > 0,
    ensures
        k * b / k == b,
        b * k / k == b,
{
    assert(k * b / k == b) by (nonlinear_arith)
        requires
            k > 0,
    ;
    assert(b * k == k * b) by (nonlinear_arith);
}

} // verus!
