//! Colours for what the solver computes: a shade for the density at a point
//! and a shade for the speed of a particle.

use crate::fixed::Fixed;
use crate::maths::{lerp, lerp_spec};
use crate::params::SimulationParameters;
use crate::particle::Particle;
use crate::physics::{compute_edge_density, compute_edge_density_spec};
use crate::vec2::Vec2;
use vstd::prelude::*;

verus! {

/// A colour by its red, green and blue parts, each from 0 to 1.
#[derive(Clone, Copy, Debug, PartialEq, Eq, Structural)]
pub struct Rgb {
    pub red: Fixed,
    pub green: Fixed,
    pub blue: Fixed,
}

/// How many particles' worth of density count as the densest shade.
pub const DENSITY_RANGE: i32 = 5;

/// Colour of a point with no density.
pub open spec fn color_low_pressure_spec() -> Rgb {
    Rgb { red: Fixed::zero(), green: Fixed::zero(), blue: Fixed::one() }
}

/// Colour of a point at the target density.
pub open spec fn color_target_pressure_spec() -> Rgb {
    Rgb { red: Fixed::one(), green: Fixed::one(), blue: Fixed::one() }
}

/// Colour of a point at the highest density.
pub open spec fn color_high_pressure_spec() -> Rgb {
    Rgb { red: Fixed::one(), green: Fixed::zero(), blue: Fixed::zero() }
}

/// Colour of a particle at rest.
pub open spec fn particle_color_slow_spec() -> Rgb {
    Rgb {
        red: Fixed::ratio_spec(32, 255),
        green: Fixed::ratio_spec(166, 255),
        blue: Fixed::ratio_spec(214, 255),
    }
}

/// Colour of a fast particle.
pub open spec fn particle_color_fast_spec() -> Rgb {
    Rgb {
        red: Fixed::ratio_spec(214, 255),
        green: Fixed::ratio_spec(32, 255),
        blue: Fixed::ratio_spec(32, 255),
    }
}

/// Share of a density range that shades into the colour of the target
/// density (1/20).
pub open spec fn margin_spec() -> Fixed {
    Fixed::ratio_spec(1, 20)
}

/// Density of the densest shade.
pub open spec fn density_upper_bound_spec(params: &SimulationParameters) -> Fixed {
    Fixed::int_spec(DENSITY_RANGE as int).mul(params.kernel.self_density(params.smoothing_radius))
}

/// Density under which a point shades toward the colour of no density.
pub open spec fn margin_lower_bound_spec(params: &SimulationParameters) -> Fixed {
    params.target_density.mul(Fixed::one().sub(margin_spec()))
}

/// Density from which a point shades toward the colour of the highest
/// density.
pub open spec fn margin_upper_bound_spec(params: &SimulationParameters) -> Fixed {
    params.target_density.add(
        density_upper_bound_spec(params).sub(params.target_density).mul(margin_spec()),
    )
}

/// The colour at the fraction `t` of the way from `a` to `b`.
pub open spec fn lerp_color_spec(a: Rgb, b: Rgb, t: Fixed) -> Rgb {
    Rgb {
        red: lerp_spec(a.red, b.red, t),
        green: lerp_spec(a.green, b.green, t),
        blue: lerp_spec(a.blue, b.blue, t),
    }
}

/// Density that the walls, where they repel, and the first `n` particles
/// add at `sample_point`.
pub open spec fn field_density_spec(
    sample_point: Vec2,
    particles: Seq<Particle>,
    n: int,
    params: &SimulationParameters,
) -> Fixed
    decreases n,
{
    if n <= 0 {
        if params.edge_repulsion {
            compute_edge_density_spec(sample_point, params)
        } else {
            Fixed::zero()
        }
    } else {
        field_density_spec(sample_point, particles, n - 1, params).add(
            params.kernel.influence(
                sample_point.sub(particles[n - 1].position.0).length_squared(),
                params.smoothing_radius,
            ),
        )
    }
}

/// The shade of a density: toward the colour of no density under the lower
/// margin, the colour of the target density between the margins, and
/// toward the colour of the highest density above the upper margin.
pub open spec fn shade_spec(density: Fixed, params: &SimulationParameters) -> Rgb {
    let lower = margin_lower_bound_spec(params);
    let upper = margin_upper_bound_spec(params);
    if density.raw < lower.raw {
        lerp_color_spec(
            color_low_pressure_spec(),
            color_target_pressure_spec(),
            density.mul(Fixed::one().div(lower)),
        )
    } else if density.raw < upper.raw {
        color_target_pressure_spec()
    } else {
        let range = density_upper_bound_spec(params).sub(upper);
        lerp_color_spec(
            color_target_pressure_spec(),
            color_high_pressure_spec(),
            Fixed::one().min(density.sub(upper).mul(Fixed::one().div(range))),
        )
    }
}

/// The colour of the density at `sample_point`.
pub open spec fn for_density_spec(
    sample_point: Vec2,
    particles: Seq<Particle>,
    params: &SimulationParameters,
) -> Rgb {
    shade_spec(
        field_density_spec(sample_point, particles, particles.len() as int, params),
        params,
    )
}

/// The colour of a particle of speed `v`: fast from a speed of 2 on.
pub open spec fn for_velocity_spec(v: Fixed) -> Rgb {
    lerp_color_spec(
        particle_color_slow_spec(),
        particle_color_fast_spec(),
        Fixed::one().min(v.mul(Fixed { raw: crate::physics::RAW_HALF })),
    )
}

/// The colour at the fraction `t` of the way from `a` to `b`.
pub fn lerp_color(a: &Rgb, b: &Rgb, t: Fixed) -> (r: Rgb)
    ensures
        r == lerp_color_spec(*a, *b, t),
{
    Rgb {
        red: lerp(a.red, b.red, t),
        green: lerp(a.green, b.green, t),
        blue: lerp(a.blue, b.blue, t),
    }
}

/// Density at `sample_point`, from the walls, where they repel, and from
/// every particle.
pub fn field_density(
    sample_point: Vec2,
    particles: &Vec<Particle>,
    params: &SimulationParameters,
) -> (r: Fixed)
    ensures
        r == field_density_spec(sample_point, particles@, particles@.len() as int, params),
{
    let mut density = if params.edge_repulsion {
        compute_edge_density(&sample_point, params)
    } else {
        Fixed::zero()
    };
    let n = particles.len();
    let mut i: usize = 0;
    while i < n
        invariant
            i <= n,
            n == particles.len(),
            density == field_density_spec(sample_point, particles@, i as int, params),
        decreases n - i,
    {
        let displacement_squared = sample_point.sub(particles[i].position.0).length_squared();
        density = density.add(
            params.kernel.influence(displacement_squared, params.smoothing_radius),
        );
        i = i + 1;
    }
    density
}

/// The shade of a density.
pub fn shade(density: Fixed, params: &SimulationParameters) -> (r: Rgb)
    ensures
        r == shade_spec(density, params),
{
    let low = Rgb { red: Fixed::zero(), green: Fixed::zero(), blue: Fixed::one() };
    let target = Rgb { red: Fixed::one(), green: Fixed::one(), blue: Fixed::one() };
    let high = Rgb { red: Fixed::one(), green: Fixed::zero(), blue: Fixed::zero() };
    let margin = Fixed::from_ratio(1, 20);
    let density_upper_bound = Fixed::from_int(DENSITY_RANGE).mul(
        params.kernel.self_density(params.smoothing_radius),
    );
    let margin_lower_bound = params.target_density.mul(Fixed::one().sub(margin));
    let margin_upper_bound = params.target_density.add(
        density_upper_bound.sub(params.target_density).mul(margin),
    );
    if density.raw < margin_lower_bound.raw {
        lerp_color(&low, &target, density.mul(Fixed::one().div(margin_lower_bound)))
    } else if density.raw < margin_upper_bound.raw {
        target
    } else {
        let density_error = density.sub(margin_upper_bound);
        let upper_density_range = density_upper_bound.sub(margin_upper_bound);
        lerp_color(
            &target,
            &high,
            Fixed::one().min(density_error.mul(Fixed::one().div(upper_density_range))),
        )
    }
}

/// The colour of the density at `sample_point`.
pub fn for_density(
    sample_point: Vec2,
    particles: &Vec<Particle>,
    params: &SimulationParameters,
) -> (r: Rgb)
    ensures
        r == for_density_spec(sample_point, particles@, params),
{
    shade(field_density(sample_point, particles, params), params)
}

/// The colour of a particle of speed `v`.
pub fn for_velocity(v: Fixed) -> (r: Rgb)
    ensures
        r == for_velocity_spec(v),
{
    let slow = Rgb {
        red: Fixed::from_ratio(32, 255),
        green: Fixed::from_ratio(166, 255),
        blue: Fixed::from_ratio(214, 255),
    };
    let fast = Rgb {
        red: Fixed::from_ratio(214, 255),
        green: Fixed::from_ratio(32, 255),
        blue: Fixed::from_ratio(32, 255),
    };
    let color_factor = Fixed::one().min(v.mul(Fixed { raw: crate::physics::RAW_HALF }));
    lerp_color(&slow, &fast, color_factor)
}

/// The colour of every particle, by its speed.
pub fn update_colors(particles: &Vec<Particle>) -> (r: Vec<Rgb>)
    ensures
        r@.len() == particles@.len(),
        forall|i: int|
            0 <= i < particles@.len() ==> #[trigger] r@[i] == for_velocity_spec(
                particles@[i].velocity.0.length(),
            ),
{
    let n = particles.len();
    let mut colors: Vec<Rgb> = Vec::new();
    let mut i: usize = 0;
    while i < n
        invariant
            i <= n,
            n == particles.len(),
            colors@.len() == i,
            forall|k: int|
                0 <= k < i ==> #[trigger] colors@[k] == for_velocity_spec(
                    particles@[k].velocity.0.length(),
                ),
        decreases n - i,
    {
        colors.push(for_velocity(particles[i].velocity.0.length()));
        i = i + 1;
    }
    colors
}

} // verus!
