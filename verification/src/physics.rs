//! The physics of one particle: damping at start-up, the equation of state,
//! the walls, and the integrator.

use crate::fixed::{lemma_isqrt_is, Fixed, RAW_MAX, SCALE};
use crate::maths::smooth_ramp;
use crate::params::SimulationParameters;
use crate::vec2::Vec2;
use vstd::prelude::*;

verus! {

/// Density of a wall in units of the target density (1.2), as a raw value.
pub const RAW_EDGE_RATIO: i64 = 5153960755;

/// One half, as a raw value.
pub const RAW_HALF: i64 = 2147483648;

/// The factor, from 0 to 1, by which pressure is scaled while a run starts.
#[derive(Clone, Copy, Debug)]
pub struct StartupDamping(pub Fixed);

/// What one step of the integrator gives.
#[derive(Clone, Copy, Debug, PartialEq, Eq, Structural)]
pub struct VerletResult {
    /// The position before the step, mirrored where the step hit a wall.
    pub prev_x: Vec2,
    /// The position after the step.
    pub x: Vec2,
    /// The velocity after the step.
    pub v: Vec2,
    /// Whether the particle moved at all.
    pub moved: bool,
}

/// The damping factor at the time `elapsed` since the start.
pub open spec fn damping_at(elapsed: Fixed, params: &SimulationParameters) -> Fixed {
    if params.startup_damping {
        smooth_ramp(elapsed.div(params.startup_interval))
    } else {
        Fixed::one()
    }
}

/// `(density - target density) * pressure_multiplier`
pub open spec fn density_to_pressure_spec(
    density: Fixed,
    pressure_multiplier: Fixed,
    params: &SimulationParameters,
) -> Fixed {
    density.sub(params.target_density).mul(pressure_multiplier)
}

/// The density that a wall stands for.
pub open spec fn edge_density_level_spec(params: &SimulationParameters) -> Fixed {
    (Fixed { raw: RAW_EDGE_RATIO }).mul(params.target_density)
}

/// The factor that turns the kernel's weight at a wall into density, so that
/// a particle touching a wall feels the wall's density.
pub open spec fn edge_density_factor_spec(params: &SimulationParameters) -> Fixed {
    edge_density_level_spec(params).div(params.kernel.self_density(params.smoothing_radius))
}

/// Density that the nearest walls add at `sample_point`.
pub open spec fn compute_edge_density_spec(
    sample_point: Vec2,
    params: &SimulationParameters,
) -> Fixed {
    let ex = params.half_extent.x.sub(sample_point.x.abs());
    let ey = params.half_extent.y.sub(sample_point.y.abs());
    let h = params.smoothing_radius;
    params.kernel.influence(ex.mul(ex), h).add(params.kernel.influence(ey.mul(ey), h)).mul(
        edge_density_factor_spec(params),
    )
}

/// Signed distance from the nearer of the two walls at `-half` and `half`
/// to `coordinate`.
pub open spec fn wall_offset_spec(coordinate: Fixed, half: Fixed) -> Fixed {
    coordinate.sub(
        if coordinate.raw > 0 {
            half
        } else {
            half.neg()
        },
    )
}

/// Acceleration that the nearest walls give a particle at `sample_point`;
/// `dir_x` and `dir_y` are the directions taken where the particle touches
/// the wall across the first or the second axis.
pub open spec fn compute_edge_acceleration_spec(
    sample_point: Vec2,
    sample_density: Fixed,
    pressure_multiplier: Fixed,
    params: &SimulationParameters,
    dir_x: Vec2,
    dir_y: Vec2,
) -> Vec2 {
    let ex = wall_offset_spec(sample_point.x, params.half_extent.x);
    let ey = wall_offset_spec(sample_point.y, params.half_extent.y);
    let h = params.smoothing_radius;
    let level = edge_density_level_spec(params);
    let edge_pressure = density_to_pressure_spec(level, pressure_multiplier, params);
    let gradient = params.kernel.gradient_spec(Vec2 { x: ex, y: Fixed::zero() }, h, dir_x).add(
        params.kernel.gradient_spec(Vec2 { x: Fixed::zero(), y: ey }, h, dir_y),
    );
    gradient.scale(edge_pressure).div(level).div(sample_density)
}

/// Whether `acc` is the acceleration of the walls for some pair of fallback
/// directions.
pub open spec fn is_edge_acceleration(
    sample_point: Vec2,
    sample_density: Fixed,
    pressure_multiplier: Fixed,
    params: &SimulationParameters,
    acc: Vec2,
) -> bool {
    exists|dir_x: Vec2, dir_y: Vec2|
        dir_x.is_direction() && dir_y.is_direction() && acc == #[trigger] compute_edge_acceleration_spec(
            sample_point,
            sample_density,
            pressure_multiplier,
            params,
            dir_x,
            dir_y,
        )
}

/// The mirror image of `value` in `bound`: `2 bound - value`.
pub open spec fn reflect_spec(bound: Fixed, value: Fixed) -> Fixed {
    Fixed::int_spec(2).mul(bound).sub(value)
}

/// One axis of a step checked against the walls at `low` and `high`: the
/// previous coordinate, the new coordinate and the velocity, in this order.
/// Where the new coordinate lies beyond a wall, both coordinates are mirrored
/// in that wall and the velocity is turned round and scaled by `restitution`.
pub open spec fn boundary_check_spec(
    prev_x: Fixed,
    new_x: Fixed,
    v: Fixed,
    low: Fixed,
    high: Fixed,
    restitution: Fixed,
) -> (Fixed, Fixed, Fixed) {
    if new_x.raw < low.raw {
        (reflect_spec(low, prev_x), reflect_spec(low, new_x), v.mul(restitution.neg()))
    } else if new_x.raw > high.raw {
        (reflect_spec(high, prev_x), reflect_spec(high, new_x), v.mul(restitution.neg()))
    } else {
        (prev_x, new_x, v)
    }
}

/// How far one step of length `dt` moves a particle: from its velocity and
/// acceleration where it has no previous position, and from its last move
/// and its acceleration where it has one.
pub open spec fn displacement_spec(
    prev_x: Option<Vec2>,
    x: Vec2,
    v: Vec2,
    a: Vec2,
    dt: Fixed,
) -> Vec2 {
    match prev_x {
        None => v.scale(dt).add(a.scale(Fixed { raw: RAW_HALF }).scale(dt).scale(dt)),
        Some(prev) => x.sub(prev).add(a.scale(dt).scale(dt)),
    }
}

/// One step of the integrator.
pub open spec fn verlet_spec(
    prev_x: Option<Vec2>,
    x: Vec2,
    v: Vec2,
    a: Vec2,
    dt: Fixed,
    params: &SimulationParameters,
) -> VerletResult {
    let delta_x = displacement_spec(prev_x, x, v, a, dt);
    if delta_x.length().raw < Fixed::epsilon().raw {
        VerletResult { prev_x: x, x: x, v: Vec2::zero(), moved: false }
    } else {
        let next_x = x.add(delta_x);
        let next_v = delta_x.div(dt);
        let bound = params.centre_bound();
        let c = params.restitution;
        let along_x = boundary_check_spec(x.x, next_x.x, next_v.x, bound.x.neg(), bound.x, c);
        let along_y = boundary_check_spec(x.y, next_x.y, next_v.y, bound.y.neg(), bound.y, c);
        VerletResult {
            prev_x: Vec2 { x: along_x.0, y: along_y.0 },
            x: Vec2 { x: along_x.1, y: along_y.1 },
            v: Vec2 { x: along_x.2, y: along_y.2 },
            moved: true,
        }
    }
}

impl StartupDamping {
    /// The damping factor at the start of a run.
    pub fn initial(params: &SimulationParameters) -> (r: StartupDamping)
        ensures
            r.0 == damping_at(Fixed::zero(), params),
    {
        let mut damping = StartupDamping(Fixed::zero());
        update_startup_damping(Fixed::zero(), &mut damping, params);
        damping
    }
}

/// Sets the damping factor for the time `elapsed` since the start.
pub fn update_startup_damping(
    elapsed: Fixed,
    damping: &mut StartupDamping,
    params: &SimulationParameters,
)
    ensures
        final(damping).0 == damping_at(elapsed, params),
        0 <= final(damping).0.raw <= SCALE,
{
    if params.startup_damping {
        damping.0 = smooth_ramp(elapsed.div(params.startup_interval));
    } else {
        damping.0 = Fixed::one();
    }
}

/// `(density - target density) * pressure_multiplier`
#[verifier::when_used_as_spec(density_to_pressure_spec)]
pub fn density_to_pressure(
    density: Fixed,
    pressure_multiplier: Fixed,
    params: &SimulationParameters,
) -> (r: Fixed)
    ensures
        r == density_to_pressure_spec(density, pressure_multiplier, params),
{
    let density_error = density.sub(params.target_density);
    density_error.mul(pressure_multiplier)
}

/// The density that a wall stands for.
#[verifier::when_used_as_spec(edge_density_level_spec)]
pub fn edge_density_level(params: &SimulationParameters) -> (r: Fixed)
    ensures
        r == edge_density_level_spec(params),
{
    (Fixed { raw: RAW_EDGE_RATIO }).mul(params.target_density)
}

/// Density that the nearest walls add at `sample_point`.
pub fn compute_edge_density(sample_point: &Vec2, params: &SimulationParameters) -> (r: Fixed)
    ensures
        r == compute_edge_density_spec(*sample_point, params),
{
    let edge_displacement = (
        params.half_extent.x.sub(sample_point.x.abs()),
        params.half_extent.y.sub(sample_point.y.abs()),
    );
    let displacement_squared = (
        edge_displacement.0.mul(edge_displacement.0),
        edge_displacement.1.mul(edge_displacement.1),
    );
    let h = params.smoothing_radius;
    let edge_density = params.kernel.influence(displacement_squared.0, h).add(
        params.kernel.influence(displacement_squared.1, h),
    );
    let factor = edge_density_level(params).div(params.kernel.self_density(h));
    edge_density.mul(factor)
}

/// Signed distance from the nearer of the two walls at `-half` and `half`
/// to `coordinate`.
#[verifier::when_used_as_spec(wall_offset_spec)]
pub fn wall_offset(coordinate: Fixed, half: Fixed) -> (r: Fixed)
    ensures
        r == wall_offset_spec(coordinate, half),
{
    coordinate.sub(
        if coordinate.raw > 0 {
            half
        } else {
            half.neg()
        },
    )
}

/// Acceleration of the walls with given fallback directions.
pub fn compute_edge_acceleration_toward(
    sample_point: &Vec2,
    sample_density: Fixed,
    pressure_multiplier: Fixed,
    params: &SimulationParameters,
    dir_x: Vec2,
    dir_y: Vec2,
) -> (r: Vec2)
    ensures
        r == compute_edge_acceleration_spec(
            *sample_point,
            sample_density,
            pressure_multiplier,
            params,
            dir_x,
            dir_y,
        ),
{
    let edge_displacement = (
        wall_offset(sample_point.x, params.half_extent.x),
        wall_offset(sample_point.y, params.half_extent.y),
    );
    let h = params.smoothing_radius;
    let level = edge_density_level(params);
    let edge_pressure = density_to_pressure(level, pressure_multiplier, params);
    let gradient = params.kernel.gradient_toward(
        Vec2 { x: edge_displacement.0, y: Fixed::zero() },
        h,
        dir_x,
    ).add(
        params.kernel.gradient_toward(Vec2 { x: Fixed::zero(), y: edge_displacement.1 }, h, dir_y),
    );
    let acc = gradient.scale(edge_pressure).div(level);
    acc.div(sample_density)
}

/// Acceleration of the walls; where the particle touches a wall, the
/// direction away from it is drawn at random.
pub fn compute_edge_acceleration(
    sample_point: &Vec2,
    sample_density: Fixed,
    pressure_multiplier: Fixed,
    params: &SimulationParameters,
) -> (r: Vec2)
    ensures
        is_edge_acceleration(*sample_point, sample_density, pressure_multiplier, params, r),
{
    let h = params.smoothing_radius;
    let dir_x = crate::kernel::fallback_direction(
        Vec2 { x: wall_offset(sample_point.x, params.half_extent.x), y: Fixed::zero() },
        h,
    );
    let dir_y = crate::kernel::fallback_direction(
        Vec2 { x: Fixed::zero(), y: wall_offset(sample_point.y, params.half_extent.y) },
        h,
    );
    compute_edge_acceleration_toward(
        sample_point,
        sample_density,
        pressure_multiplier,
        params,
        dir_x,
        dir_y,
    )
}

/// The mirror image of `value` in `bound`: `2 bound - value`.
#[verifier::when_used_as_spec(reflect_spec)]
pub fn reflect(bound: Fixed, value: Fixed) -> (r: Fixed)
    ensures
        r == reflect_spec(bound, value),
{
    Fixed::from_int(2).mul(bound).sub(value)
}

/// Checks one axis of a step against the walls at `low` and `high`.
pub fn boundary_check(
    prev_x: &mut Fixed,
    new_x: &mut Fixed,
    v: &mut Fixed,
    low: Fixed,
    high: Fixed,
    restitution: Fixed,
)
    ensures
        (*final(prev_x), *final(new_x), *final(v)) == boundary_check_spec(
            *old(prev_x),
            *old(new_x),
            *old(v),
            low,
            high,
            restitution,
        ),
{
    if new_x.raw < low.raw {
        *prev_x = reflect(low, *prev_x);
        *new_x = reflect(low, *new_x);
        *v = v.mul(restitution.neg());
    } else if new_x.raw > high.raw {
        *prev_x = reflect(high, *prev_x);
        *new_x = reflect(high, *new_x);
        *v = v.mul(restitution.neg());
    }
}

/// Computes the next position and velocity of a particle from its
/// acceleration and its previous and current positions. Where the step
/// crosses a wall, the previous position, the new position and the velocity
/// are adjusted.
pub fn verlet(
    prev_x: &Option<Vec2>,
    x: &Vec2,
    v: &Vec2,
    a: &Vec2,
    dt: Fixed,
    params: &SimulationParameters,
) -> (r: VerletResult)
    ensures
        r == verlet_spec(*prev_x, *x, *v, *a, dt, params),
{
    let delta_x = match prev_x {
        None => v.scale(dt).add(a.scale(Fixed { raw: RAW_HALF }).scale(dt).scale(dt)),
        Some(prev_x) => x.sub(*prev_x).add(a.scale(dt).scale(dt)),
    };
    if delta_x.length().raw < Fixed::epsilon().raw {
        return VerletResult { prev_x: *x, x: *x, v: Vec2::zero(), moved: false };
    }
    let mut curr_x = *x;
    let mut next_x = x.add(delta_x);
    let mut next_v = delta_x.div(dt);
    let bound = params.centre_bound();
    let c = params.restitution;

    boundary_check(&mut curr_x.x, &mut next_x.x, &mut next_v.x, bound.x.neg(), bound.x, c);
    boundary_check(&mut curr_x.y, &mut next_x.y, &mut next_v.y, bound.y.neg(), bound.y, c);

    VerletResult { prev_x: curr_x, x: next_x, v: next_v, moved: true }
}

/// A step that ends `delta` beyond the upper wall ends `delta` short of it
/// instead, with the velocity turned round and scaled by the restitution: a
/// restitution of zero leaves no velocity at all. This holds wherever twice
/// the wall and the mirrored position can be represented.
pub proof fn lemma_bounce_high(
    prev_x: Fixed,
    new_x: Fixed,
    v: Fixed,
    low: Fixed,
    high: Fixed,
    restitution: Fixed,
    delta: int,
)
    requires
        low.raw <= high.raw,
        delta > 0,
        new_x.raw == high.raw + delta,
        -RAW_MAX <= 2 * high.raw <= RAW_MAX,
        -RAW_MAX <= high.raw - delta,
    ensures
        boundary_check_spec(prev_x, new_x, v, low, high, restitution).1.raw == high.raw - delta,
        boundary_check_spec(prev_x, new_x, v, low, high, restitution).0 == reflect_spec(
            high,
            prev_x,
        ),
        boundary_check_spec(prev_x, new_x, v, low, high, restitution).2 == v.mul_spec(
            restitution.neg_spec(),
        ),
        restitution.raw == 0 ==> boundary_check_spec(prev_x, new_x, v, low, high, restitution).2
            == Fixed::zero_spec(),
{
    high.lemma_double();
    v.lemma_mul_zero();
}

/// A step that ends `delta` beyond the lower wall ends `delta` short of it
/// instead, with the velocity turned round and scaled by the restitution.
pub proof fn lemma_bounce_low(
    prev_x: Fixed,
    new_x: Fixed,
    v: Fixed,
    low: Fixed,
    high: Fixed,
    restitution: Fixed,
    delta: int,
)
    requires
        delta > 0,
        new_x.raw == low.raw - delta,
        -RAW_MAX <= 2 * low.raw <= RAW_MAX,
        low.raw + delta <= RAW_MAX,
    ensures
        boundary_check_spec(prev_x, new_x, v, low, high, restitution).1.raw == low.raw + delta,
        boundary_check_spec(prev_x, new_x, v, low, high, restitution).0 == reflect_spec(
            low,
            prev_x,
        ),
        boundary_check_spec(prev_x, new_x, v, low, high, restitution).2 == v.mul_spec(
            restitution.neg_spec(),
        ),
        restitution.raw == 0 ==> boundary_check_spec(prev_x, new_x, v, low, high, restitution).2
            == Fixed::zero_spec(),
{
    low.lemma_double();
    v.lemma_mul_zero();
}

/// A step that ends no farther beyond a wall than the walls are apart ends
/// between the walls once it is checked.
pub proof fn lemma_boundary_keeps_inside(
    prev_x: Fixed,
    new_x: Fixed,
    v: Fixed,
    low: Fixed,
    high: Fixed,
    restitution: Fixed,
)
    requires
        low.raw <= high.raw,
        -RAW_MAX <= 2 * low.raw,
        2 * high.raw <= RAW_MAX,
        2 * low.raw - high.raw <= new_x.raw <= 2 * high.raw - low.raw,
    ensures
        low.raw <= boundary_check_spec(prev_x, new_x, v, low, high, restitution).1.raw
            <= high.raw,
{
    low.lemma_double();
    high.lemma_double();
}

/// A particle whose last move and acceleration are both nothing does not
/// move: the step leaves it where it is, with no velocity.
pub proof fn lemma_rest_is_kept(
    prev_x: Option<Vec2>,
    x: Vec2,
    dt: Fixed,
    params: &SimulationParameters,
)
    requires
        prev_x == Some(x) || prev_x.is_none(),
    ensures
        displacement_spec(prev_x, x, Vec2::zero_spec(), Vec2::zero_spec(), dt) == Vec2::zero_spec(),
        verlet_spec(prev_x, x, Vec2::zero_spec(), Vec2::zero_spec(), dt, params) == (VerletResult {
            prev_x: x,
            x: x,
            v: Vec2::zero_spec(),
            moved: false,
        }),
{
    dt.lemma_mul_zero();
    (Fixed { raw: RAW_HALF }).lemma_mul_zero();
    assert(crate::fixed::is_root(0, 0));
    lemma_isqrt_is(0, 0);
    let zero = Vec2::zero_spec();
    assert(zero.scale_spec(dt) == zero);
    assert(zero.scale_spec(Fixed { raw: RAW_HALF }) == zero);
    assert(zero.x.raw * zero.x.raw + zero.y.raw * zero.y.raw == 0) by (nonlinear_arith)
        requires
            zero.x.raw == 0,
            zero.y.raw == 0,
    ;
    assert(zero.length_spec().raw == 0);
}

/// A step from inside the box that would end no farther beyond a wall than
/// the box is wide ends inside the box.
pub proof fn lemma_verlet_stays_inside(
    prev_x: Option<Vec2>,
    x: Vec2,
    v: Vec2,
    a: Vec2,
    dt: Fixed,
    params: &SimulationParameters,
)
    requires
        params.well_formed(),
        -params.centre_bound_spec().x.raw <= x.x.raw <= params.centre_bound_spec().x.raw,
        -params.centre_bound_spec().y.raw <= x.y.raw <= params.centre_bound_spec().y.raw,
        -3 * params.centre_bound_spec().x.raw <= x.add_spec(
            displacement_spec(prev_x, x, v, a, dt),
        ).x.raw <= 3 * params.centre_bound_spec().x.raw,
        -3 * params.centre_bound_spec().y.raw <= x.add_spec(
            displacement_spec(prev_x, x, v, a, dt),
        ).y.raw <= 3 * params.centre_bound_spec().y.raw,
    ensures
        -params.centre_bound_spec().x.raw <= verlet_spec(prev_x, x, v, a, dt, params).x.x.raw
            <= params.centre_bound_spec().x.raw,
        -params.centre_bound_spec().y.raw <= verlet_spec(prev_x, x, v, a, dt, params).x.y.raw
            <= params.centre_bound_spec().y.raw,
{
    let delta_x = displacement_spec(prev_x, x, v, a, dt);
    let next_x = x.add_spec(delta_x);
    let next_v = delta_x.div_spec(dt);
    let bound = params.centre_bound_spec();
    let c = params.restitution;
    lemma_boundary_keeps_inside(x.x, next_x.x, next_v.x, bound.x.neg_spec(), bound.x, c);
    lemma_boundary_keeps_inside(x.y, next_x.y, next_v.y, bound.y.neg_spec(), bound.y, c);
}

/// The damping factor never falls as time goes by.
pub proof fn lemma_damping_monotone(earlier: Fixed, later: Fixed, params: &SimulationParameters)
    requires
        0 <= earlier.raw <= later.raw,
        params.startup_interval.raw > 0,
    ensures
        damping_at(earlier, params).raw <= damping_at(later, params).raw,
{
    if params.startup_damping {
        let t = params.startup_interval.raw as int;
        let a = earlier.raw * SCALE;
        let b = later.raw * SCALE;
        assert(0 <= a <= b) by (nonlinear_arith)
            requires
                0 <= earlier.raw <= later.raw,
                a == earlier.raw * SCALE,
                b == later.raw * SCALE,
        ;
        assert(0 <= a / t <= b / t) by (nonlinear_arith)
            requires
                0 <= a <= b,
                t > 0,
        ;
        crate::maths::lemma_smooth_ramp_monotone(
            earlier.div_spec(params.startup_interval),
            later.div_spec(params.startup_interval),
        );
    }
}

} // verus!
