//! Smoothing kernels: how much a particle weighs at a distance, and in which
//! direction that weight falls off.

use crate::fixed::{
    lemma_isqrt_monotone, lemma_isqrt_square, lemma_quot_nonpos, lemma_root_exists,
    lemma_square_rounds_down, magnitude, quot, Fixed, SCALE,
};
use crate::random::unit_direction;
use crate::vec2::Vec2;
use vstd::prelude::*;

verus! {

/// The kernels that the solver can smooth with.
#[derive(Clone, Copy, Debug, PartialEq, Eq, Structural)]
pub enum Kernel {
    /// `4/(pi h^2) (1 - d^2/h^2)^3`
    Smooth6,
    /// `6/(pi h^2) (1 - d/h)^2`
    Spiky2,
}

/// `4 / (pi h^2)`
pub open spec fn smooth6_factor_spec(h: Fixed) -> Fixed {
    Fixed::int_spec(4).div(Fixed::pi().mul(h.mul(h)))
}

/// `24 / (pi h^4)`
pub open spec fn smooth6_grad_factor_spec(h: Fixed) -> Fixed {
    Fixed::int_spec(24).div(Fixed::pi().mul(h.mul(h)).mul(h.mul(h)))
}

/// `6 / (pi h^2)`
pub open spec fn spiky2_factor_spec(h: Fixed) -> Fixed {
    Fixed::int_spec(6).div(Fixed::pi().mul(h.mul(h)))
}

/// `12 / (pi h^3)`
pub open spec fn spiky2_grad_factor_spec(h: Fixed) -> Fixed {
    Fixed::int_spec(12).div(Fixed::pi().mul(h.mul(h)).mul(h))
}

/// Value of the `Smooth6` kernel at the squared distance `d2`, for the
/// smoothing radius `h`.
pub open spec fn smooth6_spec(d2: Fixed, h: Fixed) -> Fixed {
    if d2.raw > h.mul(h).raw {
        Fixed::zero()
    } else {
        let value = Fixed::one().sub(d2.div(h.mul(h)));
        smooth6_factor_spec(h).mul(value).mul(value).mul(value)
    }
}

/// Value of the `Spiky2` kernel at the squared distance `d2`, for the
/// smoothing radius `h`.
pub open spec fn spiky2_spec(d2: Fixed, h: Fixed) -> Fixed {
    if d2.raw > h.mul(h).raw {
        Fixed::zero()
    } else {
        let value = Fixed::one().sub(d2.sqrt().div(h));
        spiky2_factor_spec(h).mul(value).mul(value)
    }
}

/// Whether a displacement lies in the support of a kernel and is too short
/// to have a direction of its own.
pub open spec fn is_singular(displacement: Vec2, h: Fixed) -> bool {
    displacement.length_squared().raw <= h.mul(h).raw && displacement.length().raw
        < Fixed::epsilon().raw
}

/// Gradient of the `Smooth6` kernel at `displacement`; `fallback` is the
/// direction taken where the displacement is singular.
pub open spec fn grad_smooth6_spec(displacement: Vec2, h: Fixed, fallback: Vec2) -> Vec2 {
    let d2 = displacement.length_squared();
    if d2.raw > h.mul(h).raw {
        Vec2::zero()
    } else if displacement.length().raw < Fixed::epsilon().raw {
        fallback.scale(smooth6_grad_factor_spec(h))
    } else {
        let value = Fixed::one().sub(d2.div(h.mul(h)));
        displacement.scale(smooth6_grad_factor_spec(h).mul(value).mul(value))
    }
}

/// Gradient of the `Spiky2` kernel at `displacement`; `fallback` is the
/// direction taken where the displacement is singular.
pub open spec fn grad_spiky2_spec(displacement: Vec2, h: Fixed, fallback: Vec2) -> Vec2 {
    if displacement.length_squared().raw > h.mul(h).raw {
        Vec2::zero()
    } else {
        let distance = displacement.length();
        if distance.raw < Fixed::epsilon().raw {
            fallback.scale(spiky2_grad_factor_spec(h))
        } else {
            displacement.scale(
                spiky2_grad_factor_spec(h).mul(Fixed::one().div(distance).sub(Fixed::one().div(h))),
            )
        }
    }
}

/// `4 / (pi h^2)`
#[verifier::when_used_as_spec(smooth6_factor_spec)]
pub fn smooth6_factor(h: Fixed) -> (r: Fixed)
    ensures
        r == smooth6_factor_spec(h),
{
    Fixed::from_int(4).div(Fixed::pi().mul(h.mul(h)))
}

/// `24 / (pi h^4)`
#[verifier::when_used_as_spec(smooth6_grad_factor_spec)]
pub fn smooth6_grad_factor(h: Fixed) -> (r: Fixed)
    ensures
        r == smooth6_grad_factor_spec(h),
{
    Fixed::from_int(24).div(Fixed::pi().mul(h.mul(h)).mul(h.mul(h)))
}

/// `6 / (pi h^2)`
#[verifier::when_used_as_spec(spiky2_factor_spec)]
pub fn spiky2_factor(h: Fixed) -> (r: Fixed)
    ensures
        r == spiky2_factor_spec(h),
{
    Fixed::from_int(6).div(Fixed::pi().mul(h.mul(h)))
}

/// `12 / (pi h^3)`
#[verifier::when_used_as_spec(spiky2_grad_factor_spec)]
pub fn spiky2_grad_factor(h: Fixed) -> (r: Fixed)
    ensures
        r == spiky2_grad_factor_spec(h),
{
    Fixed::from_int(12).div(Fixed::pi().mul(h.mul(h)).mul(h))
}

/// Value of the `Smooth6` kernel at the squared distance `d2`, for the
/// smoothing radius `h`.
#[verifier::when_used_as_spec(smooth6_spec)]
pub fn smooth6(displacement_squared: Fixed, h: Fixed) -> (r: Fixed)
    ensures
        r == smooth6_spec(displacement_squared, h),
{
    let h2 = h.mul(h);
    if displacement_squared.raw > h2.raw {
        Fixed::zero()
    } else {
        let value = Fixed::one().sub(displacement_squared.div(h2));
        smooth6_factor(h).mul(value).mul(value).mul(value)
    }
}

/// Value of the `Spiky2` kernel at the squared distance `d2`, for the
/// smoothing radius `h`.
#[verifier::when_used_as_spec(spiky2_spec)]
pub fn spiky2(displacement_squared: Fixed, h: Fixed) -> (r: Fixed)
    ensures
        r == spiky2_spec(displacement_squared, h),
{
    if displacement_squared.raw > h.mul(h).raw {
        Fixed::zero()
    } else {
        let distance = displacement_squared.sqrt();
        let value = Fixed::one().sub(distance.div(h));
        spiky2_factor(h).mul(value).mul(value)
    }
}

/// Decides whether a gradient at `displacement` needs a direction from
/// elsewhere.
pub fn singular(displacement: Vec2, h: Fixed) -> (r: bool)
    ensures
        r == is_singular(displacement, h),
{
    displacement.length_squared().raw <= h.mul(h).raw && displacement.length().raw
        < Fixed::epsilon().raw
}

/// Gradient of the `Smooth6` kernel with a given fallback direction.
pub fn grad_smooth6_toward(displacement: Vec2, h: Fixed, fallback: Vec2) -> (r: Vec2)
    ensures
        r == grad_smooth6_spec(displacement, h, fallback),
{
    let h2 = h.mul(h);
    let mag_2 = displacement.length_squared();
    if mag_2.raw > h2.raw {
        Vec2::zero()
    } else if displacement.length().raw < Fixed::epsilon().raw {
        fallback.scale(smooth6_grad_factor(h))
    } else {
        let value = Fixed::one().sub(mag_2.div(h2));
        displacement.scale(smooth6_grad_factor(h).mul(value).mul(value))
    }
}

/// Gradient of the `Spiky2` kernel with a given fallback direction.
pub fn grad_spiky2_toward(displacement: Vec2, h: Fixed, fallback: Vec2) -> (r: Vec2)
    ensures
        r == grad_spiky2_spec(displacement, h, fallback),
{
    if displacement.length_squared().raw > h.mul(h).raw {
        Vec2::zero()
    } else {
        let distance = displacement.length();
        if distance.raw < Fixed::epsilon().raw {
            fallback.scale(spiky2_grad_factor(h))
        } else {
            displacement.scale(
                spiky2_grad_factor(h).mul(Fixed::one().div(distance).sub(Fixed::one().div(h))),
            )
        }
    }
}

/// Picks the fallback direction for a gradient at `displacement`: a random
/// direction where the displacement is singular, and the first axis, which
/// the gradient then ignores, everywhere else.
pub fn fallback_direction(displacement: Vec2, h: Fixed) -> (r: Vec2)
    ensures
        r.is_direction(),
        !is_singular(displacement, h) ==> r == Vec2::x_axis(),
{
    if singular(displacement, h) {
        unit_direction()
    } else {
        Vec2::x_axis()
    }
}

/// Gradient of the `Smooth6` kernel; a singular displacement is replaced by
/// a random direction.
pub fn grad_smooth6(displacement: Vec2, h: Fixed) -> (r: Vec2)
    ensures
        Kernel::Smooth6.is_gradient(displacement, h, r),
        !is_singular(displacement, h) ==> r == grad_smooth6_spec(displacement, h, Vec2::x_axis()),
{
    let dir = fallback_direction(displacement, h);
    grad_smooth6_toward(displacement, h, dir)
}

/// Gradient of the `Spiky2` kernel; a singular displacement is replaced by
/// a random direction.
pub fn grad_spiky2(displacement: Vec2, h: Fixed) -> (r: Vec2)
    ensures
        Kernel::Spiky2.is_gradient(displacement, h, r),
        !is_singular(displacement, h) ==> r == grad_spiky2_spec(displacement, h, Vec2::x_axis()),
{
    let dir = fallback_direction(displacement, h);
    grad_spiky2_toward(displacement, h, dir)
}

impl Kernel {
    /// Weight of a particle at the squared distance `d2`.
    pub open spec fn influence_spec(self, d2: Fixed, h: Fixed) -> Fixed {
        match self {
            Kernel::Smooth6 => smooth6_spec(d2, h),
            Kernel::Spiky2 => spiky2_spec(d2, h),
        }
    }

    /// Gradient of the weight at `displacement`, with `fallback` as the
    /// direction of a singular displacement.
    pub open spec fn gradient_spec(self, displacement: Vec2, h: Fixed, fallback: Vec2) -> Vec2 {
        match self {
            Kernel::Smooth6 => grad_smooth6_spec(displacement, h, fallback),
            Kernel::Spiky2 => grad_spiky2_spec(displacement, h, fallback),
        }
    }

    /// Normalisation constant of the kernel: its weight at distance zero,
    /// which is what a particle adds to its own density.
    pub open spec fn self_density_spec(self, h: Fixed) -> Fixed {
        match self {
            Kernel::Smooth6 => smooth6_factor_spec(h),
            Kernel::Spiky2 => spiky2_factor_spec(h),
        }
    }

    /// Whether `g` is the gradient at `displacement` for some fallback
    /// direction.
    pub open spec fn is_gradient(self, displacement: Vec2, h: Fixed, g: Vec2) -> bool {
        exists|dir: Vec2| #[trigger] dir.is_direction() && g == self.gradient_spec(displacement, h, dir)
    }

    /// Weight of a particle at the squared distance `d2`.
    #[verifier::when_used_as_spec(influence_spec)]
    pub fn influence(self, displacement_squared: Fixed, h: Fixed) -> (r: Fixed)
        ensures
            r == self.influence_spec(displacement_squared, h),
    {
        match self {
            Kernel::Smooth6 => smooth6(displacement_squared, h),
            Kernel::Spiky2 => spiky2(displacement_squared, h),
        }
    }

    /// Gradient with a given fallback direction.
    pub fn gradient_toward(self, displacement: Vec2, h: Fixed, fallback: Vec2) -> (r: Vec2)
        ensures
            r == self.gradient_spec(displacement, h, fallback),
    {
        match self {
            Kernel::Smooth6 => grad_smooth6_toward(displacement, h, fallback),
            Kernel::Spiky2 => grad_spiky2_toward(displacement, h, fallback),
        }
    }

    /// Gradient; a singular displacement is replaced by a random direction.
    pub fn gradient(self, displacement: Vec2, h: Fixed) -> (r: Vec2)
        ensures
            self.is_gradient(displacement, h, r),
            !is_singular(displacement, h) ==> r == self.gradient_spec(
                displacement,
                h,
                Vec2::x_axis(),
            ),
    {
        match self {
            Kernel::Smooth6 => grad_smooth6(displacement, h),
            Kernel::Spiky2 => grad_spiky2(displacement, h),
        }
    }

    /// Normalisation constant of the kernel: its weight at distance zero,
    /// which is what a particle adds to its own density.
    #[verifier::when_used_as_spec(self_density_spec)]
    pub fn self_density(self, h: Fixed) -> (r: Fixed)
        ensures
            r == self.self_density_spec(h),
    {
        match self {
            Kernel::Smooth6 => smooth6_factor(h),
            Kernel::Spiky2 => spiky2_factor(h),
        }
    }

    /// Compact support: beyond the smoothing radius a particle has no
    /// weight, and its weight has no gradient.
    pub proof fn lemma_compact_support(self, displacement: Vec2, d2: Fixed, h: Fixed, fallback: Vec2)
        ensures
            d2.raw > h.mul(h).raw ==> self.influence_spec(d2, h) == Fixed::zero(),
            displacement.length_squared().raw > h.mul(h).raw ==> self.gradient_spec(
                displacement,
                h,
                fallback,
            ) == Vec2::zero(),
    {
    }

    /// At distance zero the weight is the normalisation constant.
    pub proof fn lemma_influence_at_zero(self, h: Fixed)
        ensures
            self.influence_spec(Fixed::zero(), h) == self.self_density_spec(h),
    {
        let h2 = h.mul_spec(h);
        h.lemma_square_nonneg();
        let factor = self.self_density_spec(h);
        factor.lemma_mul_one();
        match self {
            Kernel::Smooth6 => {
                assert(Fixed::zero().div_spec(h2) == Fixed::zero());
                let value = Fixed::one().sub_spec(Fixed::zero().div_spec(h2));
                assert(value == Fixed::one_spec());
            },
            Kernel::Spiky2 => {
                assert(Fixed::zero().sqrt_spec() == Fixed::zero());
                assert(Fixed::zero().div_spec(h) == Fixed::zero());
            },
        }
    }

    /// No weight is negative.
    pub proof fn lemma_influence_nonneg(self, d2: Fixed, h: Fixed)
        ensures
            self.influence_spec(d2, h).raw >= 0,
    {
        let h2 = h.mul_spec(h);
        h.lemma_square_nonneg();
        self.lemma_self_density_positive(h);
        if d2.raw <= h2.raw {
            match self {
                Kernel::Smooth6 => {
                    let q = d2.div_spec(h2);
                    if h2.raw > 0 {
                        if d2.raw >= 0 {
                            d2.lemma_div_at_most_one(h2);
                        } else {
                            assert(d2.raw * SCALE <= 0) by (nonlinear_arith)
                                requires
                                    d2.raw < 0,
                            ;
                            lemma_quot_nonpos(d2.raw * SCALE, h2.raw as int);
                        }
                    }
                    assert(q.raw <= SCALE);
                    let value = Fixed::one_spec().sub_spec(q);
                    let f = smooth6_factor_spec(h);
                    f.lemma_mul_nonneg(value);
                    f.mul_spec(value).lemma_mul_nonneg(value);
                    f.mul_spec(value).mul_spec(value).lemma_mul_nonneg(value);
                },
                Kernel::Spiky2 => {
                    let dist = d2.sqrt_spec();
                    let q = dist.div_spec(h);
                    if d2.raw > 0 {
                        lemma_square_rounds_down(h.raw as int);
                        assert(d2.raw * SCALE <= h.raw * h.raw) by (nonlinear_arith)
                            requires
                                0 < d2.raw <= quot(h.raw * h.raw, SCALE as int),
                                quot(h.raw * h.raw, SCALE as int) * SCALE <= h.raw * h.raw,
                        ;
                        assert(0 <= d2.raw * SCALE) by (nonlinear_arith)
                            requires
                                0 < d2.raw,
                        ;
                        lemma_isqrt_monotone(d2.raw * SCALE, h.raw * h.raw);
                        lemma_isqrt_square(h.raw as int);
                        lemma_root_exists(d2.raw * SCALE);
                        assert(0 <= dist.raw <= magnitude(h.raw as int));
                    }
                    if h.raw > 0 {
                        dist.lemma_div_at_most_one(h);
                    } else if h.raw < 0 {
                        assert(dist.raw * SCALE >= 0) by (nonlinear_arith)
                            requires
                                dist.raw >= 0,
                        ;
                        lemma_quot_nonpos(dist.raw * SCALE, h.raw as int);
                    }
                    assert(q.raw <= SCALE);
                    let value = Fixed::one_spec().sub_spec(q);
                    let f = spiky2_factor_spec(h);
                    f.lemma_mul_nonneg(value);
                    f.mul_spec(value).lemma_mul_nonneg(value);
                },
            }
        }
    }

    /// The gradient at the opposite displacement, with the opposite
    /// fallback, is the opposite gradient.
    pub proof fn lemma_gradient_odd(self, displacement: Vec2, h: Fixed, fallback: Vec2)
        requires
            displacement.in_range(),
            fallback.in_range(),
        ensures
            self.gradient_spec(displacement.neg_spec(), h, fallback.neg_spec())
                == self.gradient_spec(displacement, h, fallback).neg_spec(),
            is_singular(displacement.neg_spec(), h) == is_singular(displacement, h),
    {
        displacement.lemma_neg(Fixed::zero_spec());
        let d2 = displacement.length_squared_spec();
        let value = Fixed::one_spec().sub_spec(d2.div_spec(h.mul_spec(h)));
        let distance = displacement.length_spec();
        match self {
            Kernel::Smooth6 => {
                let f = smooth6_grad_factor_spec(h);
                fallback.lemma_neg(f);
                displacement.lemma_neg(f.mul_spec(value).mul_spec(value));
            },
            Kernel::Spiky2 => {
                let f = spiky2_grad_factor_spec(h);
                fallback.lemma_neg(f);
                displacement.lemma_neg(
                    f.mul_spec(
                        Fixed::one_spec().div_spec(distance).sub_spec(Fixed::one_spec().div_spec(h)),
                    ),
                );
            },
        }
    }

    /// The gradients at opposite displacements are opposite, provided that
    /// a singular displacement is given opposite fallbacks.
    pub proof fn lemma_gradient_opposite(
        self,
        displacement: Vec2,
        h: Fixed,
        fallback: Vec2,
        opposite: Vec2,
    )
        requires
            displacement.in_range(),
            fallback.in_range(),
            is_singular(displacement, h) ==> opposite == fallback.neg_spec(),
        ensures
            self.gradient_spec(displacement.neg_spec(), h, opposite) == self.gradient_spec(
                displacement,
                h,
                fallback,
            ).neg_spec(),
            self.gradient_spec(displacement, h, fallback).in_range(),
    {
        self.lemma_gradient_odd(displacement, h, fallback);
    }

    /// The `Smooth6` kernel gives no weight at the square of any distance
    /// beyond a smoothing radius of at least 2^-16, although the rounded
    /// square of such a distance may equal that of the radius.
    pub proof fn lemma_smooth6_support_by_distance(d: Fixed, h: Fixed)
        requires
            h.raw >= 65536,
            d.raw > h.raw,
        ensures
            smooth6_spec(d.mul_spec(d), h) == Fixed::zero_spec(),
    {
        let s = SCALE as int;
        let p = h.raw * h.raw;
        let q = d.raw * d.raw;
        assert(s <= p <= q) by (nonlinear_arith)
            requires
                65536 <= h.raw < d.raw,
                p == h.raw * h.raw,
                q == d.raw * d.raw,
                s == 4294967296,
        ;
        assert(1 <= p / s <= q / s) by (nonlinear_arith)
            requires
                s <= p <= q,
                s > 0,
        ;
        let h2 = h.mul_spec(h);
        let d2 = d.mul_spec(d);
        assert(0 < h2.raw <= d2.raw);
        if d2.raw == h2.raw {
            let n = h2.raw * s;
            assert(n / (h2.raw as int) == s && n > 0) by (nonlinear_arith)
                requires
                    n == h2.raw * s,
                    h2.raw > 0,
                    s > 0,
            ;
            assert(d2.div_spec(h2) == Fixed::one_spec());
            let f = smooth6_factor_spec(h);
            f.lemma_mul_zero();
            Fixed::zero_spec().lemma_mul_zero();
        }
    }

    /// The normalisation constant is positive.
    pub proof fn lemma_self_density_positive(self, h: Fixed)
        ensures
            self.self_density_spec(h).raw > 0,
    {
        let h2 = h.mul_spec(h);
        h.lemma_square_nonneg();
        Fixed::pi_spec().lemma_mul_nonneg(h2);
        let denominator = Fixed::pi_spec().mul_spec(h2);
        Fixed::lemma_div_positive(4, denominator);
        Fixed::lemma_div_positive(6, denominator);
    }
}

} // verus!
