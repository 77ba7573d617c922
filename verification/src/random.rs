//! Random points and directions.
//!
//! The generator is the only source of chance in the solver. It is reached
//! through one trusted draw of an integer; turning draws into points and
//! directions is verified for every value a draw can have.

use crate::fixed::Fixed;
use crate::vec2::Vec2;
use rand::Rng;
use vstd::prelude::*;

verus! {

/// How many points `vec_within_disk` draws before it settles for the centre.
pub const DISK_ATTEMPTS: u32 = 64;

/// One call of `rand::Rng::gen_range` on the generator that
/// `rand::thread_rng` hands out, with the half-open range `low..high`.
///
/// Not proved: that the draw lies in the range. `gen_range` panics on an
/// empty range, which the precondition excludes.
#[verifier::external_body]
fn uniform_raw(low: i64, high: i64) -> (r: i64)
    requires
        low < high,
    ensures
        low <= r < high,
{
    rand::thread_rng().gen_range(low..high)
}

/// Whether `v` lies strictly inside the disk of radius `radius` about the
/// origin, by the exact squares of the raw components.
pub open spec fn within_disk(v: Vec2, radius: Fixed) -> bool {
    v.x@ * v.x@ + v.y@ * v.y@ < radius@ * radius@
}

/// Whether `p` lies in the box that reaches `extent` to each side of the
/// origin, its upper edges excluded.
pub open spec fn within_box(p: (Fixed, Fixed), extent: (Fixed, Fixed)) -> bool {
    &&& -extent.0@ <= p.0@ < extent.0@
    &&& -extent.1@ <= p.1@ < extent.1@
}

/// Decides whether a drawn point lies strictly inside the disk.
pub fn in_disk(v: Vec2, radius: Fixed) -> (r: bool)
    ensures
        r == within_disk(v, radius),
{
    let x: i128 = v.x.raw as i128;
    let y: i128 = v.y.raw as i128;
    let d: i128 = radius.raw as i128;
    assert(0 <= x * x <= 0x4000_0000_0000_0000_0000_0000_0000_0000 && 0 <= y * y
        <= 0x4000_0000_0000_0000_0000_0000_0000_0000 && 0 <= d * d
        <= 0x4000_0000_0000_0000_0000_0000_0000_0000) by (nonlinear_arith)
        requires
            -0x8000_0000_0000_0000 <= x <= 0x7fff_ffff_ffff_ffff,
            -0x8000_0000_0000_0000 <= y <= 0x7fff_ffff_ffff_ffff,
            -0x8000_0000_0000_0000 <= d <= 0x7fff_ffff_ffff_ffff,
    ;
    let squares: u128 = (x * x) as u128 + (y * y) as u128;
    squares < (d * d) as u128
}

/// A random point of the box that reaches `extent` to each side of the
/// origin.
pub fn point_in_box(extent: (Fixed, Fixed)) -> (r: (Fixed, Fixed))
    requires
        extent.0.raw > 0,
        extent.1.raw > 0,
    ensures
        within_box(r, extent),
{
    let x: i64 = uniform_raw(-extent.0.raw, extent.0.raw);
    let y: i64 = uniform_raw(-extent.1.raw, extent.1.raw);
    (Fixed { raw: x }, Fixed { raw: y })
}

/// A random vector strictly inside the disk of radius `max_radius`: points of
/// the enclosing square are drawn until one falls inside, and after
/// `DISK_ATTEMPTS` misses the centre is returned.
pub fn vec_within_disk(max_radius: Fixed) -> (r: Vec2)
    requires
        max_radius.raw > 0,
    ensures
        within_disk(r, max_radius),
{
    let mut attempt: u32 = 0;
    while attempt < DISK_ATTEMPTS
        invariant
            max_radius.raw > 0,
        decreases DISK_ATTEMPTS - attempt,
    {
        let (x, y) = point_in_box((max_radius, max_radius));
        let v = Vec2 { x, y };
        if in_disk(v, max_radius) {
            return v;
        }
        attempt = attempt + 1;
    }
    assert(0 < max_radius.raw * max_radius.raw) by (nonlinear_arith)
        requires
            max_radius.raw > 0,
    ;
    Vec2::zero()
}

/// Turns a drawn vector into a direction: the vector normalised, or the
/// first axis where the vector has no length.
pub fn direction_from(v: Vec2) -> (r: Vec2)
    ensures
        r == direction_from_spec(v),
        r.is_direction(),
{
    if v.length().raw > 0 {
        v.normalized()
    } else {
        Vec2::x_axis()
    }
}

/// What `direction_from` returns.
pub open spec fn direction_from_spec(v: Vec2) -> Vec2 {
    if v.length_spec().raw > 0 {
        v.normalized_spec()
    } else {
        Vec2::x_axis_spec()
    }
}

/// A random direction of the plane, uniform up to rounding: a random vector
/// of the unit disk, normalised.
pub fn unit_direction() -> (r: Vec2)
    ensures
        r.is_direction(),
{
    let v = vec_within_disk(Fixed::one());
    direction_from(v)
}

} // verus!
