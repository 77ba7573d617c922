//! Plane vectors over fixed-point components.

use crate::fixed::{
    clamp, integer_sqrt, isqrt, lemma_isqrt_monotone, lemma_isqrt_square,
    lemma_root_exists, magnitude, quot, Fixed, RAW_MAX, SCALE,
};
use vstd::prelude::*;

verus! {

/// A vector of the plane.
#[derive(Clone, Copy, Debug, PartialEq, Eq, Structural)]
pub struct Vec2 {
    pub x: Fixed,
    pub y: Fixed,
}

/// The square of a raw value is the square of its magnitude.
proof fn lemma_square_magnitude(a: int)
    ensures
        magnitude(a) * magnitude(a) == a * a,
        a * a >= 0,
{
    assert(magnitude(a) * magnitude(a) == a * a && a * a >= 0) by (nonlinear_arith)
        requires
            magnitude(a) == a || magnitude(a) == -a,
    ;
}

/// A component divided by the length of its vector lies between minus one
/// and one.
proof fn lemma_component_bounded(a: int, b: int)
    requires
        -0x8000_0000_0000_0000 <= a <= 0x7fff_ffff_ffff_ffff,
        clamp(isqrt(a * a + b * b)) > 0,
    ensures
        -SCALE <= quot(a * SCALE, clamp(isqrt(a * a + b * b))) <= SCALE,
{
    let s = SCALE as int;
    let m = magnitude(a);
    let n = a * a + b * b;
    assert(0 <= a * a <= n) by (nonlinear_arith)
        requires
            n == a * a + b * b,
    ;
    lemma_isqrt_monotone(a * a, n);
    lemma_isqrt_square(a);
    lemma_root_exists(n);
    let len = clamp(isqrt(n));
    assert(m <= len + 1);
    assert(m <= len || len > s);
    assert(magnitude(a * s) == m * s) by (nonlinear_arith)
        requires
            m == magnitude(a),
            s > 0,
            magnitude(a * s) == (if a * s < 0 {
                -(a * s)
            } else {
                a * s
            }),
            m == (if a < 0 {
                -a
            } else {
                a
            }),
    ;
    assert(0 <= m * s < (s + 1) * len) by (nonlinear_arith)
        requires
            0 <= m,
            m <= len + 1,
            m <= len || len > s,
            len > 0,
            s > 0,
    ;
    let p = m * s;
    assert(0 <= p / len <= s) by (nonlinear_arith)
        requires
            0 <= p < (s + 1) * len,
            len > 0,
    ;
}

impl Vec2 {
    /// The null vector.
    pub open spec fn zero_spec() -> Vec2 {
        Vec2 { x: Fixed::zero_spec(), y: Fixed::zero_spec() }
    }

    /// The unit vector along the first axis.
    pub open spec fn x_axis_spec() -> Vec2 {
        Vec2 { x: Fixed::one_spec(), y: Fixed::zero_spec() }
    }

    /// Component-wise sum.
    pub open spec fn add_spec(self, rhs: Vec2) -> Vec2 {
        Vec2 { x: self.x.add_spec(rhs.x), y: self.y.add_spec(rhs.y) }
    }

    /// Component-wise difference.
    pub open spec fn sub_spec(self, rhs: Vec2) -> Vec2 {
        Vec2 { x: self.x.sub_spec(rhs.x), y: self.y.sub_spec(rhs.y) }
    }

    /// The opposite vector.
    pub open spec fn neg_spec(self) -> Vec2 {
        Vec2 { x: self.x.neg_spec(), y: self.y.neg_spec() }
    }

    /// Each component multiplied by `k`.
    pub open spec fn scale_spec(self, k: Fixed) -> Vec2 {
        Vec2 { x: self.x.mul_spec(k), y: self.y.mul_spec(k) }
    }

    /// Each component divided by `k`.
    pub open spec fn div_spec(self, k: Fixed) -> Vec2 {
        Vec2 { x: self.x.div_spec(k), y: self.y.div_spec(k) }
    }

    /// Squared length, from the rounded squares of the components.
    pub open spec fn length_squared_spec(self) -> Fixed {
        self.x.mul_spec(self.x).add_spec(self.y.mul_spec(self.y))
    }

    /// Length: the root of the exact sum of squares, rounded down.
    pub open spec fn length_spec(self) -> Fixed {
        Fixed::sat(isqrt(self.x.raw * self.x.raw + self.y.raw * self.y.raw))
    }

    /// The vector divided by its length; the null vector stays null.
    pub open spec fn normalized_spec(self) -> Vec2 {
        self.div_spec(self.length_spec())
    }

    /// Whether `self` is what normalising some vector other than the null
    /// vector gives.
    pub open spec fn is_direction(self) -> bool {
        exists|v: Vec2| #[trigger] v.length_spec().raw > 0 && self == v.normalized_spec()
    }

    /// The null vector.
    #[verifier::when_used_as_spec(zero_spec)]
    pub fn zero() -> (r: Vec2)
        ensures
            r == Self::zero_spec(),
    {
        Vec2 { x: Fixed::zero(), y: Fixed::zero() }
    }

    /// The unit vector along the first axis.
    #[verifier::when_used_as_spec(x_axis_spec)]
    pub fn x_axis() -> (r: Vec2)
        ensures
            r == Self::x_axis_spec(),
            r.is_direction(),
    {
        let r = Vec2 { x: Fixed::one(), y: Fixed::zero() };
        proof {
            Self::lemma_x_axis_is_direction();
        }
        r
    }

    /// A vector from its components.
    pub fn new(x: Fixed, y: Fixed) -> (r: Vec2)
        ensures
            r == (Vec2 { x, y }),
    {
        Vec2 { x, y }
    }

    /// Component-wise sum.
    #[verifier::when_used_as_spec(add_spec)]
    pub fn add(self, rhs: Vec2) -> (r: Vec2)
        ensures
            r == self.add_spec(rhs),
    {
        Vec2 { x: self.x.add(rhs.x), y: self.y.add(rhs.y) }
    }

    /// Component-wise difference.
    #[verifier::when_used_as_spec(sub_spec)]
    pub fn sub(self, rhs: Vec2) -> (r: Vec2)
        ensures
            r == self.sub_spec(rhs),
    {
        Vec2 { x: self.x.sub(rhs.x), y: self.y.sub(rhs.y) }
    }

    /// The opposite vector.
    #[verifier::when_used_as_spec(neg_spec)]
    pub fn neg(self) -> (r: Vec2)
        ensures
            r == self.neg_spec(),
    {
        Vec2 { x: self.x.neg(), y: self.y.neg() }
    }

    /// Each component multiplied by `k`.
    #[verifier::when_used_as_spec(scale_spec)]
    pub fn scale(self, k: Fixed) -> (r: Vec2)
        ensures
            r == self.scale_spec(k),
    {
        Vec2 { x: self.x.mul(k), y: self.y.mul(k) }
    }

    /// Each component divided by `k`.
    #[verifier::when_used_as_spec(div_spec)]
    pub fn div(self, k: Fixed) -> (r: Vec2)
        ensures
            r == self.div_spec(k),
    {
        Vec2 { x: self.x.div(k), y: self.y.div(k) }
    }

    /// Squared length, from the rounded squares of the components.
    #[verifier::when_used_as_spec(length_squared_spec)]
    pub fn length_squared(self) -> (r: Fixed)
        ensures
            r == self.length_squared_spec(),
    {
        self.x.mul(self.x).add(self.y.mul(self.y))
    }

    /// Length: the root of the exact sum of squares, rounded down.
    #[verifier::when_used_as_spec(length_spec)]
    pub fn length(self) -> (r: Fixed)
        ensures
            r == self.length_spec(),
    {
        let a: u128 = if self.x.raw < 0 {
            (-(self.x.raw as i128)) as u128
        } else {
            self.x.raw as u128
        };
        let b: u128 = if self.y.raw < 0 {
            (-(self.y.raw as i128)) as u128
        } else {
            self.y.raw as u128
        };
        proof {
            lemma_square_magnitude(self.x.raw as int);
            lemma_square_magnitude(self.y.raw as int);
            assert(a * a <= 0x4000_0000_0000_0000_0000_0000_0000_0000) by (nonlinear_arith)
                requires
                    a <= 0x8000_0000_0000_0000,
            ;
            assert(b * b <= 0x4000_0000_0000_0000_0000_0000_0000_0000) by (nonlinear_arith)
                requires
                    b <= 0x8000_0000_0000_0000,
            ;
        }
        let root: u128 = integer_sqrt(a * a + b * b);
        if root > RAW_MAX as u128 {
            Fixed { raw: RAW_MAX }
        } else {
            Fixed { raw: root as i64 }
        }
    }

    /// The vector divided by its length; the null vector stays null.
    #[verifier::when_used_as_spec(normalized_spec)]
    pub fn normalized(self) -> (r: Vec2)
        ensures
            r == self.normalized_spec(),
            self.length_spec().raw > 0 ==> r.is_direction(),
    {
        self.div(self.length())
    }

    /// Whether both components lie in the symmetric range.
    pub open spec fn in_range(self) -> bool {
        self.x.in_range() && self.y.in_range()
    }

    /// Scaling, dividing and measuring commute with turning a vector round.
    pub proof fn lemma_neg(self, k: Fixed)
        requires
            self.in_range(),
            k.in_range(),
        ensures
            self.neg_spec().scale_spec(k) == self.scale_spec(k).neg_spec(),
            self.neg_spec().div_spec(k) == self.div_spec(k).neg_spec(),
            self.neg_spec().length_squared_spec() == self.length_squared_spec(),
            self.neg_spec().length_spec() == self.length_spec(),
    {
        self.x.lemma_mul_neg(k);
        self.y.lemma_mul_neg(k);
        self.x.lemma_div_neg(k);
        self.y.lemma_div_neg(k);
        self.x.lemma_mul_neg(self.x);
        self.y.lemma_mul_neg(self.y);
        assert((-self.x.raw) * (-self.x.raw) == self.x.raw * self.x.raw) by (nonlinear_arith);
        assert((-self.y.raw) * (-self.y.raw) == self.y.raw * self.y.raw) by (nonlinear_arith);
    }

    /// A vector scaled and then divided turns round with the vector.
    pub proof fn lemma_weighted_neg(self, weight: Fixed, divisor: Fixed)
        requires
            self.in_range(),
            weight.in_range(),
            divisor.in_range(),
        ensures
            self.neg_spec().scale_spec(weight).div_spec(divisor) == self.scale_spec(
                weight,
            ).div_spec(divisor).neg_spec(),
    {
        self.lemma_neg(weight);
        self.scale_spec(weight).lemma_neg(divisor);
    }

    /// Neither component of a direction exceeds one.
    pub proof fn lemma_direction_bounded(self)
        requires
            self.is_direction(),
        ensures
            -SCALE <= self.x.raw <= SCALE,
            -SCALE <= self.y.raw <= SCALE,
    {
        let v = choose|v: Vec2| #[trigger] v.length_spec().raw > 0 && self == v.normalized_spec();
        let a = v.x.raw as int;
        let b = v.y.raw as int;
        assert(b * b + a * a == a * a + b * b);
        lemma_component_bounded(a, b);
        lemma_component_bounded(b, a);
    }

    /// The first axis is a direction.
    pub proof fn lemma_x_axis_is_direction()
        ensures
            Self::x_axis_spec().is_direction(),
    {
        let v = Self::x_axis_spec();
        lemma_isqrt_square(SCALE as int);
        assert(v.x.raw * v.x.raw + v.y.raw * v.y.raw == SCALE * SCALE) by (nonlinear_arith)
            requires
                v.x.raw == SCALE,
                v.y.raw == 0,
        ;
        assert(v.length_spec().raw == SCALE);
        assert(magnitude(SCALE * SCALE) / magnitude(SCALE as int) == SCALE) by (nonlinear_arith)
            requires
                magnitude(SCALE * SCALE) == SCALE * SCALE,
                magnitude(SCALE as int) == SCALE,
                SCALE == 4294967296,
        ;
        assert(v.normalized_spec() == v);
    }
}

} // verus!
