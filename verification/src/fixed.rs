//! Signed fixed-point scalars with 32 fractional bits.
//!
//! Every quantity of the solver (lengths, times, densities, pressures) is a
//! `Fixed`: an integer count of units of 2^-32. Arithmetic saturates at the
//! ends of a symmetric range instead of wrapping, so every operation is total,
//! and products and quotients round toward zero, so negation commutes with
//! them.

use vstd::prelude::*;

verus! {

/// Raw units in the value one.
pub const SCALE: i64 = 4294967296;

/// Largest raw value; the smallest is its negation.
pub const RAW_MAX: i64 = 9223372036854775807;

/// The circle constant, rounded to the nearest raw unit.
pub const RAW_PI: i64 = 13493037705;

/// The distance (2^-23) under which a displacement counts as no displacement.
pub const RAW_EPSILON: i64 = 512;

/// Confines an integer to the symmetric raw range.
pub open spec fn clamp(x: int) -> int {
    if x > RAW_MAX {
        RAW_MAX as int
    } else if x < -RAW_MAX {
        -(RAW_MAX as int)
    } else {
        x
    }
}

/// Absolute value of an integer.
pub open spec fn magnitude(x: int) -> int {
    if x < 0 {
        -x
    } else {
        x
    }
}

/// Quotient rounded toward zero.
pub open spec fn quot(a: int, b: int) -> int
    recommends
        b != 0,
{
    if (a < 0) == (b < 0) {
        magnitude(a) / magnitude(b)
    } else {
        -(magnitude(a) / magnitude(b))
    }
}

/// `r` is the integer square root of `n`, rounded down.
pub open spec fn is_root(n: int, r: int) -> bool {
    0 <= r && r * r <= n && n < (r + 1) * (r + 1)
}

/// The integer square root of `n`, rounded down (meaningful for `n >= 0`).
pub open spec fn isqrt(n: int) -> int {
    choose|r: int| is_root(n, r)
}

/// Two roots of the same number are equal.
pub proof fn lemma_root_unique(n: int, r: int, s: int)
    requires
        is_root(n, r),
        is_root(n, s),
    ensures
        r == s,
{
    if r < s {
        assert((r + 1) * (r + 1) <= s * s) by (nonlinear_arith)
            requires
                0 <= r,
                r + 1 <= s,
        ;
    } else if s < r {
        assert((s + 1) * (s + 1) <= r * r) by (nonlinear_arith)
            requires
                0 <= s,
                s + 1 <= r,
        ;
    }
}

/// Every natural number has a root.
pub proof fn lemma_root_exists(n: int)
    requires
        n >= 0,
    ensures
        is_root(n, isqrt(n)),
    decreases n,
{
    if n == 0 {
        assert(is_root(0, 0));
    } else {
        lemma_root_exists(n - 1);
        let r = isqrt(n - 1);
        if (r + 1) * (r + 1) <= n {
            assert(n < (r + 2) * (r + 2)) by (nonlinear_arith)
                requires
                    0 <= r,
                    n - 1 < (r + 1) * (r + 1),
            ;
            assert(is_root(n, r + 1));
        } else {
            assert(is_root(n, r));
        }
    }
}

/// A number that passes the root test is the root.
pub proof fn lemma_isqrt_is(n: int, r: int)
    requires
        is_root(n, r),
    ensures
        isqrt(n) == r,
{
    lemma_root_unique(n, r, isqrt(n));
}

/// The root grows with its argument.
pub proof fn lemma_isqrt_monotone(m: int, n: int)
    requires
        0 <= m <= n,
    ensures
        isqrt(m) <= isqrt(n),
{
    lemma_root_exists(m);
    lemma_root_exists(n);
    let r = isqrt(m);
    let s = isqrt(n);
    if s < r {
        assert((s + 1) * (s + 1) <= r * r) by (nonlinear_arith)
            requires
                0 <= s,
                s + 1 <= r,
        ;
    }
}

/// The root of a square is the magnitude of what was squared.
pub proof fn lemma_isqrt_square(x: int)
    ensures
        isqrt(x * x) == magnitude(x),
{
    let m = magnitude(x);
    assert(m * m == x * x) by (nonlinear_arith)
        requires
            m == x || m == -x,
    ;
    assert(m * m < (m + 1) * (m + 1)) by (nonlinear_arith)
        requires
            0 <= m,
    ;
    lemma_isqrt_is(x * x, m);
}

/// Integer square root of a 128-bit number, by bisection.
pub fn integer_sqrt(n: u128) -> (r: u128)
    ensures
        r == isqrt(n as int),
        r < 0x1_0000_0000_0000_0000,
{
    let mut lo: u128 = 0;
    let mut hi: u128 = 0x1_0000_0000_0000_0000;
    assert(n < hi * hi) by (nonlinear_arith)
        requires
            hi == 0x1_0000_0000_0000_0000,
            n <= u128::MAX,
    ;
    while hi - lo > 1
        invariant
            lo < hi <= 0x1_0000_0000_0000_0000,
            lo * lo <= n,
            n < hi * hi,
        decreases hi - lo,
    {
        let mid: u128 = lo + (hi - lo) / 2;
        assert(mid * mid <= u128::MAX) by (nonlinear_arith)
            requires
                mid <= 0xffff_ffff_ffff_ffff,
        ;
        if mid * mid <= n {
            lo = mid;
        } else {
            hi = mid;
        }
    }
    proof {
        lemma_isqrt_is(n as int, lo as int);
    }
    lo
}

/// A fixed-point number: `raw` counts units of 2^-32.
#[derive(Clone, Copy, Debug, PartialEq, Eq, Structural)]
pub struct Fixed {
    pub raw: i64,
}

impl View for Fixed {
    type V = int;

    /// The raw count as a mathematical integer.
    open spec fn view(&self) -> int {
        self.raw as int
    }
}

/// Sign and magnitude of a product.
proof fn lemma_product_sign(a: int, b: int)
    ensures
        magnitude(a * b) == magnitude(a) * magnitude(b),
        (a * b < 0) == (a != 0 && b != 0 && ((a < 0) != (b < 0))),
        magnitude(a) * magnitude(b) >= 0,
{
    assert(magnitude(a * b) == magnitude(a) * magnitude(b) && ((a * b < 0) == (a != 0 && b != 0
        && ((a < 0) != (b < 0)))) && magnitude(a) * magnitude(b) >= 0) by (nonlinear_arith)
        requires
            magnitude(a) == (if a < 0 {
                -a
            } else {
                a
            }),
            magnitude(b) == (if b < 0 {
                -b
            } else {
                b
            }),
            magnitude(a * b) == (if a * b < 0 {
                -(a * b)
            } else {
                a * b
            }),
    ;
}

/// Saturating conversion of a wide integer.
fn saturate(x: i128) -> (r: Fixed)
    ensures
        r == Fixed::sat(x as int),
{
    if x > RAW_MAX as i128 {
        Fixed { raw: RAW_MAX }
    } else if x < -(RAW_MAX as i128) {
        Fixed { raw: -RAW_MAX }
    } else {
        Fixed { raw: x as i64 }
    }
}

/// Magnitude of a raw value as an unsigned wide integer.
fn wide_magnitude(x: i64) -> (r: u128)
    ensures
        r == magnitude(x as int),
        r <= 0x8000_0000_0000_0000,
{
    if x < 0 {
        (-(x as i128)) as u128
    } else {
        x as u128
    }
}

/// Signs a magnitude and saturates it.
fn signed_saturate(q: u128, negative: bool) -> (r: Fixed)
    ensures
        r == Fixed::sat(
            if negative {
                -(q as int)
            } else {
                q as int
            },
        ),
{
    if q > RAW_MAX as u128 {
        if negative {
            Fixed { raw: -RAW_MAX }
        } else {
            Fixed { raw: RAW_MAX }
        }
    } else if negative {
        Fixed { raw: -(q as i64) }
    } else {
        Fixed { raw: q as i64 }
    }
}

impl Fixed {
    /// The fixed-point number nearest to the raw count `x`.
    pub open spec fn sat(x: int) -> Fixed {
        Fixed { raw: clamp(x) as i64 }
    }

    /// Sum, saturated.
    pub open spec fn add_spec(self, rhs: Fixed) -> Fixed {
        Self::sat(self.raw + rhs.raw)
    }

    /// Difference, saturated.
    pub open spec fn sub_spec(self, rhs: Fixed) -> Fixed {
        Self::sat(self.raw - rhs.raw)
    }

    /// Negation, saturated.
    pub open spec fn neg_spec(self) -> Fixed {
        Self::sat(-self.raw)
    }

    /// Product, rounded toward zero and saturated.
    pub open spec fn mul_spec(self, rhs: Fixed) -> Fixed {
        Self::sat(quot(self.raw * rhs.raw, SCALE as int))
    }

    /// Quotient, rounded toward zero and saturated. Dividing by zero gives
    /// the end of the range on the side of the dividend, and zero for zero.
    pub open spec fn div_spec(self, rhs: Fixed) -> Fixed {
        if rhs.raw == 0 {
            if self.raw > 0 {
                Self::sat(RAW_MAX as int)
            } else if self.raw < 0 {
                Self::sat(-(RAW_MAX as int))
            } else {
                Self::sat(0)
            }
        } else {
            Self::sat(quot(self.raw * SCALE, rhs.raw as int))
        }
    }

    /// Square root, rounded down; zero for a negative number.
    pub open spec fn sqrt_spec(self) -> Fixed {
        if self.raw <= 0 {
            Self::sat(0)
        } else {
            Self::sat(isqrt(self.raw * SCALE))
        }
    }

    /// The smaller of two numbers.
    pub open spec fn min_spec(self, rhs: Fixed) -> Fixed {
        if rhs.raw < self.raw {
            rhs
        } else {
            self
        }
    }

    /// Absolute value, saturated.
    pub open spec fn abs_spec(self) -> Fixed {
        Self::sat(magnitude(self.raw as int))
    }

    /// Zero.
    pub open spec fn zero_spec() -> Fixed {
        Fixed { raw: 0 }
    }

    /// One.
    pub open spec fn one_spec() -> Fixed {
        Fixed { raw: SCALE }
    }

    /// The whole number `n`.
    pub open spec fn int_spec(n: int) -> Fixed {
        Self::sat(n * SCALE)
    }

    /// The ratio `num / den`, rounded toward zero.
    pub open spec fn ratio_spec(num: int, den: int) -> Fixed {
        (Fixed { raw: clamp(num) as i64 }).div_spec(Fixed { raw: clamp(den) as i64 })
    }

    /// The circle constant.
    pub open spec fn pi_spec() -> Fixed {
        Fixed { raw: RAW_PI }
    }

    /// The threshold of negligible distance.
    pub open spec fn epsilon_spec() -> Fixed {
        Fixed { raw: RAW_EPSILON }
    }

    /// Whether the raw value lies in the symmetric range that every
    /// operation of this type returns.
    pub open spec fn in_range(self) -> bool {
        -RAW_MAX <= self.raw
    }

    /// Makes a number from its raw count, saturating the one raw value
    /// outside the symmetric range.
    pub fn from_raw(raw: i64) -> (r: Fixed)
        ensures
            r == Self::sat(raw as int),
    {
        saturate(raw as i128)
    }

    /// Zero.
    #[verifier::when_used_as_spec(zero_spec)]
    pub fn zero() -> (r: Fixed)
        ensures
            r == Self::zero_spec(),
    {
        Fixed { raw: 0 }
    }

    /// One.
    #[verifier::when_used_as_spec(one_spec)]
    pub fn one() -> (r: Fixed)
        ensures
            r == Self::one_spec(),
    {
        Fixed { raw: SCALE }
    }

    /// The circle constant.
    #[verifier::when_used_as_spec(pi_spec)]
    pub fn pi() -> (r: Fixed)
        ensures
            r == Self::pi_spec(),
    {
        Fixed { raw: RAW_PI }
    }

    /// The threshold of negligible distance.
    #[verifier::when_used_as_spec(epsilon_spec)]
    pub fn epsilon() -> (r: Fixed)
        ensures
            r == Self::epsilon_spec(),
    {
        Fixed { raw: RAW_EPSILON }
    }

    /// The whole number `n`.
    pub fn from_int(n: i32) -> (r: Fixed)
        ensures
            r == Self::int_spec(n as int),
    {
        let wide: i128 = (n as i128) * 4294967296;
        saturate(wide)
    }

    /// The whole number `n`, from an unsigned count.
    pub fn from_u32(n: u32) -> (r: Fixed)
        ensures
            r == Self::int_spec(n as int),
    {
        let wide: i128 = (n as i128) * 4294967296;
        saturate(wide)
    }

    /// The ratio `num / den`, rounded toward zero; see `div` for `den == 0`.
    pub fn from_ratio(num: i64, den: i64) -> (r: Fixed)
        ensures
            r == Self::ratio_spec(num as int, den as int),
    {
        Self::from_raw(num).div(Self::from_raw(den))
    }

    /// Sum, saturated.
    #[verifier::when_used_as_spec(add_spec)]
    pub fn add(self, rhs: Fixed) -> (r: Fixed)
        ensures
            r == self.add_spec(rhs),
    {
        saturate(self.raw as i128 + rhs.raw as i128)
    }

    /// Difference, saturated.
    #[verifier::when_used_as_spec(sub_spec)]
    pub fn sub(self, rhs: Fixed) -> (r: Fixed)
        ensures
            r == self.sub_spec(rhs),
    {
        saturate(self.raw as i128 - rhs.raw as i128)
    }

    /// Negation, saturated.
    #[verifier::when_used_as_spec(neg_spec)]
    pub fn neg(self) -> (r: Fixed)
        ensures
            r == self.neg_spec(),
    {
        saturate(-(self.raw as i128))
    }

    /// Product, rounded toward zero and saturated.
    #[verifier::when_used_as_spec(mul_spec)]
    pub fn mul(self, rhs: Fixed) -> (r: Fixed)
        ensures
            r == self.mul_spec(rhs),
    {
        let a: u128 = wide_magnitude(self.raw);
        let b: u128 = wide_magnitude(rhs.raw);
        proof {
            lemma_product_sign(self.raw as int, rhs.raw as int);
            assert(a * b <= 0x4000_0000_0000_0000_0000_0000_0000_0000) by (nonlinear_arith)
                requires
                    a <= 0x8000_0000_0000_0000,
                    b <= 0x8000_0000_0000_0000,
            ;
        }
        let q: u128 = (a * b) / (SCALE as u128);
        let negative: bool = (self.raw < 0) != (rhs.raw < 0);
        signed_saturate(q, negative)
    }

    /// Quotient, rounded toward zero and saturated. Dividing by zero gives
    /// the end of the range on the side of the dividend, and zero for zero.
    #[verifier::when_used_as_spec(div_spec)]
    pub fn div(self, rhs: Fixed) -> (r: Fixed)
        ensures
            r == self.div_spec(rhs),
    {
        if rhs.raw == 0 {
            if self.raw > 0 {
                Fixed { raw: RAW_MAX }
            } else if self.raw < 0 {
                Fixed { raw: -RAW_MAX }
            } else {
                Fixed { raw: 0 }
            }
        } else {
            let a: u128 = wide_magnitude(self.raw);
            let b: u128 = wide_magnitude(rhs.raw);
            proof {
                lemma_product_sign(self.raw as int, SCALE as int);
            }
            let q: u128 = (a * (SCALE as u128)) / b;
            let negative: bool = (self.raw < 0) != (rhs.raw < 0);
            signed_saturate(q, negative)
        }
    }

    /// Square root, rounded down; zero for a negative number.
    #[verifier::when_used_as_spec(sqrt_spec)]
    pub fn sqrt(self) -> (r: Fixed)
        ensures
            r == self.sqrt_spec(),
    {
        if self.raw <= 0 {
            Fixed { raw: 0 }
        } else {
            let n: u128 = (self.raw as u128) * (SCALE as u128);
            let root: u128 = integer_sqrt(n);
            signed_saturate(root, false)
        }
    }

    /// The smaller of two numbers.
    #[verifier::when_used_as_spec(min_spec)]
    pub fn min(self, rhs: Fixed) -> (r: Fixed)
        ensures
            r == self.min_spec(rhs),
    {
        if rhs.raw < self.raw {
            rhs
        } else {
            self
        }
    }

    /// Absolute value, saturated.
    #[verifier::when_used_as_spec(abs_spec)]
    pub fn abs(self) -> (r: Fixed)
        ensures
            r == self.abs_spec(),
    {
        let m: u128 = wide_magnitude(self.raw);
        signed_saturate(m, false)
    }

    /// The raw count.
    pub fn raw(self) -> (r: i64)
        ensures
            r == self.raw,
    {
        self.raw
    }
}


/// A product of a raw value with the scale, divided by the scale again, is
/// the raw value.
pub proof fn lemma_quot_scaled(a: int)
    ensures
        quot(a * SCALE, SCALE as int) == a,
{
    let s = SCALE as int;
    lemma_product_sign(a, s);
    assert((magnitude(a) * s) / s == magnitude(a)) by (nonlinear_arith)
        requires
            s > 0,
    ;
}

/// Rounding toward zero keeps a quotient of two numbers that are not
/// negative from being negative, and under the dividend where the divisor is
/// at least one.
pub proof fn lemma_quot_nonneg(a: int, b: int)
    requires
        a >= 0,
        b > 0,
    ensures
        0 <= quot(a, b) <= a,
{
    assert(0 <= a / b <= a) by (nonlinear_arith)
        requires
            a >= 0,
            b > 0,
    ;
}

/// The quotient of a smaller by a larger positive number, taken at the
/// scale, is at most the scale.
pub proof fn lemma_quot_at_most_scale(a: int, b: int)
    requires
        0 <= a <= b,
        b > 0,
    ensures
        0 <= quot(a * SCALE, b) <= SCALE,
{
    let s = SCALE as int;
    assert(0 <= a * s <= b * s) by (nonlinear_arith)
        requires
            0 <= a <= b,
            s > 0,
    ;
    assert(0 <= (a * s) / b <= s) by (nonlinear_arith)
        requires
            0 <= a * s <= b * s,
            b > 0,
    ;
}

/// A quotient of two numbers on opposite sides of zero is not positive.
pub proof fn lemma_quot_nonpos(a: int, b: int)
    requires
        (a <= 0 && b > 0) || (a >= 0 && b < 0),
    ensures
        quot(a, b) <= 0,
{
    let m = magnitude(a);
    let d = magnitude(b);
    assert(m / d >= 0) by (nonlinear_arith)
        requires
            m >= 0,
            d > 0,
    ;
}

/// The square of a number is at least the scale times its rounded square.
pub proof fn lemma_square_rounds_down(a: int)
    ensures
        0 <= quot(a * a, SCALE as int) * SCALE <= a * a,
{
    let p = a * a;
    let s = SCALE as int;
    assert(p >= 0) by (nonlinear_arith)
        requires
            p == a * a,
    ;
    assert(0 <= (p / s) * s <= p) by (nonlinear_arith)
        requires
            p >= 0,
            s > 0,
    ;
}

/// Negating the dividend negates a quotient rounded toward zero.
pub proof fn lemma_quot_odd(a: int, b: int)
    requires
        b != 0,
    ensures
        quot(-a, b) == -quot(a, b),
{
    if a == 0 {
        assert(0int / magnitude(b) == 0) by (nonlinear_arith)
            requires
                magnitude(b) > 0,
        ;
    }
}

impl Fixed {
    /// Multiplying by one changes nothing.
    pub proof fn lemma_mul_one(self)
        requires
            self.in_range(),
        ensures
            self.mul_spec(Fixed::one_spec()) == self,
            Fixed::one_spec().mul_spec(self) == self,
    {
        lemma_quot_scaled(self.raw as int);
        assert(SCALE * self.raw == self.raw * SCALE) by (nonlinear_arith);
    }

    /// Multiplying by zero gives zero.
    pub proof fn lemma_mul_zero(self)
        ensures
            self.mul_spec(Fixed::zero_spec()) == Fixed::zero_spec(),
            Fixed::zero_spec().mul_spec(self) == Fixed::zero_spec(),
    {
        assert(self.raw * 0 == 0 && 0 * self.raw == 0) by (nonlinear_arith);
        assert(0int / (SCALE as int) == 0) by (nonlinear_arith);
    }

    /// A product of two numbers that are not negative is not negative.
    pub proof fn lemma_mul_nonneg(self, rhs: Fixed)
        requires
            self.raw >= 0,
            rhs.raw >= 0,
        ensures
            self.mul_spec(rhs).raw >= 0,
    {
        assert(self.raw * rhs.raw >= 0) by (nonlinear_arith)
            requires
                self.raw >= 0,
                rhs.raw >= 0,
        ;
        lemma_quot_nonneg(self.raw * rhs.raw, SCALE as int);
    }

    /// A square is not negative.
    pub proof fn lemma_square_nonneg(self)
        ensures
            self.mul_spec(self).raw >= 0,
    {
        let p = self.raw * self.raw;
        assert(p >= 0) by (nonlinear_arith)
            requires
                p == self.raw * self.raw,
        ;
        lemma_quot_nonneg(p, SCALE as int);
    }

    /// A quotient of two numbers that are not negative is not negative.
    pub proof fn lemma_div_nonneg(self, rhs: Fixed)
        requires
            self.raw >= 0,
            rhs.raw >= 0,
        ensures
            self.div_spec(rhs).raw >= 0,
    {
        if rhs.raw > 0 {
            assert(self.raw * SCALE >= 0) by (nonlinear_arith)
                requires
                    self.raw >= 0,
            ;
            lemma_quot_nonneg(self.raw * SCALE, rhs.raw as int);
        }
    }

    /// A quotient of a whole number of at least one by a number that is not
    /// negative is positive.
    pub proof fn lemma_div_positive(n: int, rhs: Fixed)
        requires
            1 <= n <= 0x7fff_ffff,
            rhs.raw >= 0,
        ensures
            Fixed::int_spec(n).div_spec(rhs).raw > 0,
    {
        let s = SCALE as int;
        let a = n * s;
        assert(s <= a <= 0x7fff_ffff * s) by (nonlinear_arith)
            requires
                a == n * s,
                1 <= n <= 0x7fff_ffff,
                s > 0,
        ;
        assert(Fixed::int_spec(n).raw == a);
        if rhs.raw > 0 {
            let b = rhs.raw as int;
            assert(a * s >= b) by (nonlinear_arith)
                requires
                    a >= s,
                    s == 4294967296,
                    b <= 0x7fff_ffff_ffff_ffff,
            ;
            assert((a * s) / b >= 1) by (nonlinear_arith)
                requires
                    a * s >= b,
                    b > 0,
            ;
        }
    }

    /// A part of a positive whole, divided by the whole, lies between zero
    /// and one.
    pub proof fn lemma_div_at_most_one(self, rhs: Fixed)
        requires
            0 <= self.raw <= rhs.raw,
            rhs.raw > 0,
        ensures
            0 <= self.div_spec(rhs).raw <= SCALE,
    {
        lemma_quot_at_most_scale(self.raw as int, rhs.raw as int);
    }
}

impl Fixed {
    /// Zero divided by anything is zero.
    pub proof fn lemma_zero_div(self)
        ensures
            Fixed::zero_spec().div_spec(self) == Fixed::zero_spec(),
    {
        if self.raw != 0 {
            let m = magnitude(self.raw as int);
            assert(0int / m == 0) by (nonlinear_arith)
                requires
                    m > 0,
            ;
        }
    }

    /// Twice a number.
    pub proof fn lemma_double(self)
        ensures
            Fixed::int_spec(2).mul_spec(self) == Fixed::sat(2 * self.raw),
    {
        assert((2 * SCALE) * self.raw == (2 * self.raw) * SCALE) by (nonlinear_arith);
        lemma_quot_scaled(2 * self.raw);
    }

    /// A product turns round with either factor.
    pub proof fn lemma_mul_neg(self, rhs: Fixed)
        requires
            self.in_range(),
            rhs.in_range(),
        ensures
            self.neg_spec().mul_spec(rhs) == self.mul_spec(rhs).neg_spec(),
            self.mul_spec(rhs.neg_spec()) == self.mul_spec(rhs).neg_spec(),
            self.neg_spec().mul_spec(rhs.neg_spec()) == self.mul_spec(rhs),
    {
        let p = self.raw * rhs.raw;
        assert((-self.raw) * rhs.raw == -p && self.raw * (-rhs.raw) == -p && (-self.raw) * (
        -rhs.raw) == p) by (nonlinear_arith)
            requires
                p == self.raw * rhs.raw,
        ;
        lemma_quot_odd(p, SCALE as int);
    }

    /// A quotient turns round with its dividend.
    pub proof fn lemma_div_neg(self, rhs: Fixed)
        requires
            self.in_range(),
        ensures
            self.neg_spec().div_spec(rhs) == self.div_spec(rhs).neg_spec(),
    {
        if rhs.raw != 0 {
            let p = self.raw * SCALE;
            assert((-self.raw) * SCALE == -p) by (nonlinear_arith)
                requires
                    p == self.raw * SCALE,
            ;
            lemma_quot_odd(p, rhs.raw as int);
        }
    }
}

} // verus!
