use fluid_box::fixed::{integer_sqrt, Fixed, RAW_EPSILON, RAW_MAX, RAW_PI, SCALE};
use fluid_box::vec2::Vec2;

fn fx(x: f64) -> Fixed {
    Fixed::from_raw((x * 4294967296.0).round() as i64)
}

fn val(f: Fixed) -> f64 {
    f.raw() as f64 / 4294967296.0
}

#[test]
fn constants_have_their_values() {
    assert_eq!(SCALE, 1i64 << 32);
    assert_eq!(Fixed::one().raw(), SCALE);
    assert_eq!(Fixed::zero().raw(), 0);
    assert_eq!(Fixed::pi().raw(), RAW_PI);
    assert!((val(Fixed::pi()) - std::f64::consts::PI).abs() < 1e-9);
    assert_eq!(Fixed::epsilon().raw(), RAW_EPSILON);
    assert!((val(Fixed::epsilon()) - f32::EPSILON as f64).abs() < 1e-12);
}

#[test]
fn whole_numbers_and_ratios() {
    assert_eq!(Fixed::from_int(3).raw(), 3 * SCALE);
    assert_eq!(Fixed::from_int(-7).raw(), -7 * SCALE);
    assert_eq!(Fixed::from_u32(1200).raw(), 1200 * SCALE);
    assert_eq!(Fixed::from_ratio(1, 2).raw(), SCALE / 2);
    assert_eq!(Fixed::from_ratio(1, 3).raw(), 1431655765);
    assert_eq!(Fixed::from_ratio(-1, 3).raw(), -1431655765);
    assert_eq!(Fixed::from_ratio(1, -3).raw(), -1431655765);
    assert_eq!(Fixed::from_ratio(1, 60).raw(), 71582788);
    assert_eq!(Fixed::from_ratio(6, 5).raw(), 5153960755);
}

#[test]
fn from_raw_saturates_the_lowest_value() {
    assert_eq!(Fixed::from_raw(i64::MIN).raw(), -RAW_MAX);
    assert_eq!(Fixed::from_raw(i64::MAX).raw(), RAW_MAX);
    assert_eq!(Fixed::from_raw(-5).raw(), -5);
}

#[test]
fn sums_and_differences_are_exact() {
    assert_eq!(fx(1.5).add(fx(2.25)), fx(3.75));
    assert_eq!(fx(1.5).sub(fx(2.25)), fx(-0.75));
    assert_eq!(fx(1.5).neg(), fx(-1.5));
    assert_eq!(fx(-1.5).abs(), fx(1.5));
    assert_eq!(fx(1.5).abs(), fx(1.5));
    assert_eq!(fx(1.5).min(fx(-2.0)), fx(-2.0));
    assert_eq!(fx(-2.0).min(fx(1.5)), fx(-2.0));
}

#[test]
fn sums_saturate_at_both_ends() {
    let top = Fixed::from_raw(RAW_MAX);
    let bottom = Fixed::from_raw(-RAW_MAX);
    assert_eq!(top.add(Fixed::one()), top);
    assert_eq!(bottom.sub(Fixed::one()), bottom);
    assert_eq!(top.add(top), top);
    assert_eq!(bottom.add(bottom), bottom);
    assert_eq!(top.neg(), bottom);
    assert_eq!(bottom.neg(), top);
    assert_eq!(top.sub(bottom), top);
}

#[test]
fn products_round_toward_zero() {
    assert_eq!(fx(1.5).mul(fx(2.5)), fx(3.75));
    assert_eq!(fx(-1.5).mul(fx(2.5)), fx(-3.75));
    assert_eq!(fx(-1.5).mul(fx(-2.5)), fx(3.75));
    // one raw unit times one half is half a raw unit, which rounds to zero
    // from either side
    assert_eq!(Fixed::from_raw(1).mul(fx(0.5)).raw(), 0);
    assert_eq!(Fixed::from_raw(-1).mul(fx(0.5)).raw(), 0);
    assert_eq!(Fixed::from_raw(3).mul(fx(0.5)).raw(), 1);
    assert_eq!(Fixed::from_raw(-3).mul(fx(0.5)).raw(), -1);
    assert_eq!(Fixed::from_int(2).mul(Fixed::from_ratio(1, 3)).raw(), 2863311530);
}

#[test]
fn products_saturate() {
    let big = Fixed::from_int(2_000_000_000);
    assert_eq!(big.mul(big).raw(), RAW_MAX);
    assert_eq!(big.mul(big.neg()).raw(), -RAW_MAX);
}

#[test]
fn quotients_round_toward_zero() {
    assert_eq!(fx(3.75).div(fx(2.5)), fx(1.5));
    assert_eq!(fx(-3.75).div(fx(2.5)), fx(-1.5));
    assert_eq!(fx(3.75).div(fx(-2.5)), fx(-1.5));
    assert_eq!(fx(-3.75).div(fx(-2.5)), fx(1.5));
    assert_eq!(Fixed::one().div(Fixed::from_int(3)).raw(), 1431655765);
    assert_eq!(Fixed::one().neg().div(Fixed::from_int(3)).raw(), -1431655765);
}

#[test]
fn division_by_zero_saturates_on_the_side_of_the_dividend() {
    assert_eq!(fx(2.0).div(Fixed::zero()).raw(), RAW_MAX);
    assert_eq!(fx(-2.0).div(Fixed::zero()).raw(), -RAW_MAX);
    assert_eq!(Fixed::zero().div(Fixed::zero()).raw(), 0);
}

#[test]
fn quotients_saturate() {
    assert_eq!(Fixed::from_int(2_000_000_000).div(Fixed::from_raw(1)).raw(), RAW_MAX);
    assert_eq!(Fixed::from_int(-2_000_000_000).div(Fixed::from_raw(1)).raw(), -RAW_MAX);
}

#[test]
fn square_roots_round_down() {
    assert_eq!(fx(4.0).sqrt(), fx(2.0));
    assert_eq!(fx(0.25).sqrt(), fx(0.5));
    assert_eq!(Fixed::from_int(2).sqrt().raw(), 6074000999);
    assert_eq!(Fixed::zero().sqrt(), Fixed::zero());
    assert_eq!(fx(-4.0).sqrt(), Fixed::zero());
}

#[test]
fn integer_square_root_of_the_ends() {
    assert_eq!(integer_sqrt(0), 0);
    assert_eq!(integer_sqrt(1), 1);
    assert_eq!(integer_sqrt(3), 1);
    assert_eq!(integer_sqrt(4), 2);
    assert_eq!(integer_sqrt(99), 9);
    assert_eq!(integer_sqrt(100), 10);
    assert_eq!(integer_sqrt(u128::MAX), u64::MAX as u128);
    let r = 0xffff_ffff_ffff_fffeu128;
    assert_eq!(integer_sqrt(r * r), r);
    assert_eq!(integer_sqrt(r * r - 1), r - 1);
}

#[test]
fn vectors_add_scale_and_turn_round() {
    let a = Vec2::new(fx(1.5), fx(-2.0));
    let b = Vec2::new(fx(0.25), fx(4.0));
    assert_eq!(a.add(b), Vec2::new(fx(1.75), fx(2.0)));
    assert_eq!(a.sub(b), Vec2::new(fx(1.25), fx(-6.0)));
    assert_eq!(a.neg(), Vec2::new(fx(-1.5), fx(2.0)));
    assert_eq!(a.scale(fx(2.0)), Vec2::new(fx(3.0), fx(-4.0)));
    assert_eq!(a.div(fx(2.0)), Vec2::new(fx(0.75), fx(-1.0)));
    assert_eq!(Vec2::zero(), Vec2::new(fx(0.0), fx(0.0)));
    assert_eq!(Vec2::x_axis(), Vec2::new(fx(1.0), fx(0.0)));
}

#[test]
fn vector_lengths() {
    let v = Vec2::new(fx(3.0), fx(-4.0));
    assert_eq!(v.length_squared(), fx(25.0));
    assert_eq!(v.length(), fx(5.0));
    assert_eq!(Vec2::zero().length(), Fixed::zero());
    assert_eq!(Vec2::new(fx(1.0), fx(1.0)).length().raw(), 6074000999);
    // too long to represent: the length saturates
    let far = Vec2::new(Fixed::from_raw(RAW_MAX), Fixed::from_raw(RAW_MAX));
    assert_eq!(far.length().raw(), RAW_MAX);
}

#[test]
fn normalising_gives_a_vector_of_length_one() {
    let v = Vec2::new(fx(3.0), fx(-4.0)).normalized();
    assert_eq!(v, Vec2::new(Fixed::from_ratio(3, 5), Fixed::from_ratio(-4, 5)));
    assert!((val(v.length()) - 1.0).abs() < 1e-9);
    assert_eq!(Vec2::x_axis().normalized(), Vec2::x_axis());
    assert_eq!(Vec2::zero().normalized(), Vec2::zero());
}
