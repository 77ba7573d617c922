//! Scalar helpers: the start-up ramp and linear interpolation.

use crate::fixed::{lemma_quot_nonneg, Fixed, SCALE};
use vstd::prelude::*;

verus! {

/// `min(1, x^2)`
pub open spec fn smooth_ramp_spec(x: Fixed) -> Fixed {
    Fixed::one().min(x.mul(x))
}

/// `a (1 - t) + b t`
pub open spec fn lerp_spec(a: Fixed, b: Fixed, t: Fixed) -> Fixed {
    a.mul(Fixed::one().sub(t)).add(b.mul(t))
}

/// Ramps from 0 to 1 over the interval from 0 to 1, and stays at 1.
#[verifier::when_used_as_spec(smooth_ramp_spec)]
pub fn smooth_ramp(x: Fixed) -> (r: Fixed)
    ensures
        r == smooth_ramp_spec(x),
        0 <= r.raw <= SCALE,
{
    proof {
        x.lemma_square_nonneg();
    }
    Fixed::one().min(x.mul(x))
}

/// The point at the fraction `t` of the way from `a` to `b`.
#[verifier::when_used_as_spec(lerp_spec)]
pub fn lerp(a: Fixed, b: Fixed, t: Fixed) -> (r: Fixed)
    ensures
        r == lerp_spec(a, b, t),
{
    a.mul(Fixed::one().sub(t)).add(b.mul(t))
}

/// The ramp never falls as its argument grows from zero.
pub proof fn lemma_smooth_ramp_monotone(x: Fixed, y: Fixed)
    requires
        0 <= x.raw <= y.raw,
    ensures
        smooth_ramp_spec(x).raw <= smooth_ramp_spec(y).raw,
{
    let p = x.raw * x.raw;
    let q = y.raw * y.raw;
    assert(0 <= p <= q) by (nonlinear_arith)
        requires
            0 <= x.raw <= y.raw,
            p == x.raw * x.raw,
            q == y.raw * y.raw,
    ;
    let s = SCALE as int;
    assert(p / s <= q / s) by (nonlinear_arith)
        requires
            0 <= p <= q,
            s > 0,
    ;
    lemma_quot_nonneg(p, s);
    lemma_quot_nonneg(q, s);
}

/// Interpolation starts at `a` and ends at `b`.
pub proof fn lemma_lerp_ends(a: Fixed, b: Fixed)
    requires
        a.in_range(),
        b.in_range(),
    ensures
        lerp_spec(a, b, Fixed::zero()) == a,
        lerp_spec(a, b, Fixed::one()) == b,
{
    a.lemma_mul_one();
    b.lemma_mul_one();
    a.lemma_mul_zero();
    b.lemma_mul_zero();
}

} // verus!
