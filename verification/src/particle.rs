//! The particles of a run and the four phases of a tick: prediction,
//! densities and pressures, accelerations, and integration.

use crate::fixed::Fixed;
use crate::kernel::{fallback_direction, is_singular};
use crate::params::SimulationParameters;
use crate::physics::{
    compute_edge_acceleration_spec, compute_edge_acceleration_toward, compute_edge_density,
    compute_edge_density_spec, density_to_pressure, density_to_pressure_spec, verlet, verlet_spec,
    lemma_rest_is_kept, wall_offset, wall_offset_spec, StartupDamping, RAW_HALF,
};
use crate::random::{point_in_box, within_box};
use crate::vec2::Vec2;
use vstd::prelude::*;

verus! {

/// Length of the step that positions are predicted with (1/60), as a raw
/// value.
pub const RAW_PREDICTION_STEP: i64 = 71582788;

/// Density at a particle.
#[derive(Clone, Copy, Debug)]
pub struct ParticleDensity(pub Fixed);

/// Pressure at a particle.
#[derive(Clone, Copy, Debug)]
pub struct ParticlePressure(pub Fixed);

/// Where a particle is.
#[derive(Clone, Copy, Debug)]
pub struct ParticlePosition(pub Vec2);

/// Where a particle was one step ago; `None` until it has made a step.
#[derive(Clone, Copy, Debug)]
pub struct PrevParticlePosition(pub Option<Vec2>);

/// Where a particle is heading: the position that forces are evaluated at.
#[derive(Clone, Copy, Debug)]
pub struct PredictedParticlePosition(pub Vec2);

/// Velocity of a particle.
#[derive(Clone, Copy, Debug)]
pub struct ParticleVelocity(pub Vec2);

/// Acceleration of a particle.
#[derive(Clone, Copy, Debug)]
pub struct ParticleAcceleration(pub Vec2);

/// A point mass of the fluid, of mass one.
#[derive(Clone, Copy, Debug)]
pub struct Particle {
    pub density: ParticleDensity,
    pub pressure: ParticlePressure,
    pub prev_position: PrevParticlePosition,
    pub position: ParticlePosition,
    pub predicted_position: PredictedParticlePosition,
    pub velocity: ParticleVelocity,
    pub acceleration: ParticleAcceleration,
}

impl Particle {
    /// A particle that has not made a step yet.
    pub open spec fn fresh_spec(position: Vec2, velocity: Vec2) -> Particle {
        Particle {
            density: ParticleDensity(Fixed::zero()),
            pressure: ParticlePressure(Fixed::zero()),
            prev_position: PrevParticlePosition(None),
            position: ParticlePosition(position),
            predicted_position: PredictedParticlePosition(Vec2::zero()),
            velocity: ParticleVelocity(velocity),
            acceleration: ParticleAcceleration(Vec2::zero()),
        }
    }

    /// A particle at rest at `position` that has not made a step yet.
    pub fn new(position: Vec2) -> (r: Particle)
        ensures
            r == Self::fresh_spec(position, Vec2::zero()),
    {
        Particle {
            density: ParticleDensity(Fixed::zero()),
            pressure: ParticlePressure(Fixed::zero()),
            prev_position: PrevParticlePosition(None),
            position: ParticlePosition(position),
            predicted_position: PredictedParticlePosition(Vec2::zero()),
            velocity: ParticleVelocity(Vec2::zero()),
            acceleration: ParticleAcceleration(Vec2::zero()),
        }
    }

    /// Puts the particle at `position` with `velocity`, as one that has not
    /// made a step yet.
    pub fn reset(&mut self, position: Vec2, velocity: Vec2)
        ensures
            *final(self) == Self::fresh_spec(position, velocity),
    {
        self.density = ParticleDensity(Fixed::zero());
        self.pressure = ParticlePressure(Fixed::zero());
        self.prev_position = PrevParticlePosition(None);
        self.position = ParticlePosition(position);
        self.predicted_position = PredictedParticlePosition(Vec2::zero());
        self.velocity = ParticleVelocity(velocity);
        self.acceleration = ParticleAcceleration(Vec2::zero());
    }

    /// The particle with its predicted position brought up to date.
    pub open spec fn predicted_spec(self, params: &SimulationParameters) -> Particle {
        Particle {
            predicted_position: PredictedParticlePosition(
                verlet_spec(
                    self.prev_position.0,
                    self.position.0,
                    self.velocity.0,
                    self.acceleration.0,
                    Fixed { raw: RAW_PREDICTION_STEP },
                    params,
                ).x,
            ),
            ..self
        }
    }

    /// The particle after one step of length `dt`. A particle that has no
    /// previous position gets one only when it moves.
    pub open spec fn integrated_spec(self, dt: Fixed, params: &SimulationParameters) -> Particle {
        let res = verlet_spec(
            self.prev_position.0,
            self.position.0,
            self.velocity.0,
            self.acceleration.0,
            dt,
            params,
        );
        Particle {
            velocity: ParticleVelocity(res.v),
            prev_position: PrevParticlePosition(
                if res.moved || self.prev_position.0.is_some() {
                    Some(res.prev_x)
                } else {
                    self.prev_position.0
                },
            ),
            position: ParticlePosition(res.x),
            ..self
        }
    }

    /// Brings the predicted position up to date.
    pub fn predict(&mut self, params: &SimulationParameters)
        ensures
            *final(self) == old(self).predicted_spec(params),
    {
        let res = verlet(
            &self.prev_position.0,
            &self.position.0,
            &self.velocity.0,
            &self.acceleration.0,
            Fixed { raw: RAW_PREDICTION_STEP },
            params,
        );
        self.predicted_position = PredictedParticlePosition(res.x);
    }

    /// Makes one step of length `dt`.
    pub fn integrate(&mut self, dt: Fixed, params: &SimulationParameters)
        ensures
            *final(self) == old(self).integrated_spec(dt, params),
    {
        let res = verlet(
            &self.prev_position.0,
            &self.position.0,
            &self.velocity.0,
            &self.acceleration.0,
            dt,
            params,
        );
        self.velocity = ParticleVelocity(res.v);
        if res.moved || self.prev_position.0.is_some() {
            self.prev_position = PrevParticlePosition(Some(res.prev_x));
        }
        self.position = ParticlePosition(res.x);
    }
}

/// Sum of the squared speeds of the first `n` particles.
pub open spec fn squared_speed_sum_spec(particles: Seq<Particle>, n: int) -> Fixed
    decreases n,
{
    if n <= 0 {
        Fixed::zero()
    } else {
        squared_speed_sum_spec(particles, n - 1).add(particles[n - 1].velocity.0.length_squared())
    }
}

/// The whole number `n` as a fixed-point number.
pub open spec fn count_spec(n: nat) -> Fixed {
    Fixed::sat(n * crate::fixed::SCALE)
}

/// Half the mean squared speed.
pub open spec fn average_kinetic_energy_spec(particles: Seq<Particle>) -> Fixed {
    (Fixed { raw: crate::physics::RAW_HALF }).mul(
        squared_speed_sum_spec(particles, particles.len() as int),
    ).div(count_spec(particles.len()))
}

/// The whole number `n` as a fixed-point number.
pub fn count(n: usize) -> (r: Fixed)
    ensures
        r == count_spec(n as nat),
{
    let wide: u128 = (n as u128) * 4294967296;
    if wide > crate::fixed::RAW_MAX as u128 {
        Fixed { raw: crate::fixed::RAW_MAX }
    } else {
        Fixed { raw: wide as i64 }
    }
}

/// Predicts where each particle is heading, with a step of fixed length.
pub fn predict_positions(particles: &mut Vec<Particle>, params: &SimulationParameters)
    ensures
        final(particles)@.len() == old(particles)@.len(),
        forall|i: int|
            0 <= i < old(particles)@.len() ==> final(particles)@[i] == (#[trigger] old(
                particles,
            )@[i]).predicted_spec(params),
{
    let n = particles.len();
    let mut i: usize = 0;
    while i < n
        invariant
            i <= n,
            n == particles@.len(),
            n == old(particles)@.len(),
            forall|k: int|
                0 <= k < i ==> particles@[k] == (#[trigger] old(particles)@[k]).predicted_spec(
                    params,
                ),
            forall|k: int| i <= k < n ==> particles@[k] == #[trigger] old(particles)@[k],
        decreases n - i,
    {
        particles[i].predict(params);
        i = i + 1;
    }
}

/// Integrates every particle over a step of length `dt` and returns the
/// average kinetic energy after the step.
pub fn update_positions(
    particles: &mut Vec<Particle>,
    dt: Fixed,
    params: &SimulationParameters,
) -> (average_ek: Fixed)
    ensures
        final(particles)@.len() == old(particles)@.len(),
        forall|i: int|
            0 <= i < old(particles)@.len() ==> final(particles)@[i] == (#[trigger] old(
                particles,
            )@[i]).integrated_spec(dt, params),
        average_ek == average_kinetic_energy_spec(final(particles)@),
{
    let n = particles.len();
    let mut ek_sum = Fixed::zero();
    let mut i: usize = 0;
    while i < n
        invariant
            i <= n,
            n == particles@.len(),
            n == old(particles)@.len(),
            forall|k: int|
                0 <= k < i ==> particles@[k] == (#[trigger] old(particles)@[k]).integrated_spec(
                    dt,
                    params,
                ),
            forall|k: int| i <= k < n ==> particles@[k] == #[trigger] old(particles)@[k],
            ek_sum == squared_speed_sum_spec(particles@, i as int),
        decreases n - i,
    {
        let ghost before = particles@;
        particles[i].integrate(dt, params);
        proof {
            lemma_speed_sum_prefix(before, particles@, i as int);
        }
        ek_sum = ek_sum.add(particles[i].velocity.0.length_squared());
        i = i + 1;
    }
    (Fixed { raw: crate::physics::RAW_HALF }).mul(ek_sum).div(count(n))
}

/// The sum of squared speeds over a prefix depends on that prefix alone.
proof fn lemma_speed_sum_prefix(a: Seq<Particle>, b: Seq<Particle>, n: int)
    requires
        n <= a.len(),
        n <= b.len(),
        forall|k: int| 0 <= k < n ==> a[k] == b[k],
    ensures
        squared_speed_sum_spec(a, n) == squared_speed_sum_spec(b, n),
    decreases n,
{
    if n > 0 {
        lemma_speed_sum_prefix(a, b, n - 1);
    }
}

/// Density that the walls, where they repel, and the first `n` particles
/// add at the predicted position of particle `i`; particle `i` itself is
/// left out, whatever lies where it lies.
pub open spec fn neighbour_density_spec(
    particles: Seq<Particle>,
    i: int,
    n: int,
    params: &SimulationParameters,
) -> Fixed
    decreases n,
{
    if n <= 0 {
        if params.edge_repulsion {
            compute_edge_density_spec(particles[i].predicted_position.0, params)
        } else {
            Fixed::zero()
        }
    } else {
        let rest = neighbour_density_spec(particles, i, n - 1, params);
        if n - 1 == i {
            rest
        } else {
            rest.add(
                params.kernel.influence(
                    particles[i].predicted_position.0.sub(
                        particles[n - 1].position.0,
                    ).length_squared(),
                    params.smoothing_radius,
                ),
            )
        }
    }
}

/// Density at particle `i`: what the walls and the other particles add, and
/// last what the particle adds to itself.
pub open spec fn density_spec(
    particles: Seq<Particle>,
    i: int,
    params: &SimulationParameters,
) -> Fixed {
    neighbour_density_spec(particles, i, particles.len() as int, params).add(
        params.kernel.self_density(params.smoothing_radius),
    )
}

/// Pressure at a density: `(density - target density) * (damping * pressure
/// multiplier)`.
pub open spec fn pressure_spec(
    density: Fixed,
    damping: Fixed,
    params: &SimulationParameters,
) -> Fixed {
    density_to_pressure_spec(density, damping.mul(params.pressure_multiplier), params)
}

/// Particle `i` with its density and pressure brought up to date.
pub open spec fn evaluated_spec(
    particles: Seq<Particle>,
    i: int,
    damping: Fixed,
    params: &SimulationParameters,
) -> Particle {
    let density = density_spec(particles, i, params);
    Particle {
        density: ParticleDensity(density),
        pressure: ParticlePressure(pressure_spec(density, damping, params)),
        ..particles[i]
    }
}

/// Density at particle `i`.
pub fn density_at(particles: &Vec<Particle>, i: usize, params: &SimulationParameters) -> (r: Fixed)
    requires
        i < particles.len(),
    ensures
        r == density_spec(particles@, i as int, params),
        params.well_formed() ==> r.raw >= params.kernel.self_density(params.smoothing_radius).raw
            > 0,
{
    let n = particles.len();
    let h = params.smoothing_radius;
    let pred_pos = particles[i].predicted_position.0;
    let mut sum = if params.edge_repulsion {
        compute_edge_density(&pred_pos, params)
    } else {
        Fixed::zero()
    };
    proof {
        if params.target_density.raw >= 0 {
            lemma_edge_density_nonneg(pred_pos, params);
        }
    }
    let mut j: usize = 0;
    while j < n
        invariant
            j <= n,
            i < n,
            n == particles.len(),
            h == params.smoothing_radius,
            pred_pos == particles@[i as int].predicted_position.0,
            sum == neighbour_density_spec(particles@, i as int, j as int, params),
            params.well_formed() ==> sum.raw >= 0,
        decreases n - j,
    {
        if j != i {
            let displacement_squared = pred_pos.sub(particles[j].position.0).length_squared();
            proof {
                params.kernel.lemma_influence_nonneg(displacement_squared, h);
            }
            sum = sum.add(params.kernel.influence(displacement_squared, h));
        }
        j = j + 1;
    }
    proof {
        params.kernel.lemma_self_density_positive(h);
    }
    sum.add(params.kernel.self_density(h))
}

/// The walls add no negative density.
pub proof fn lemma_edge_density_nonneg(sample_point: Vec2, params: &SimulationParameters)
    requires
        params.target_density.raw >= 0,
    ensures
        compute_edge_density_spec(sample_point, params).raw >= 0,
{
    let h = params.smoothing_radius;
    let ex = params.half_extent.x.sub_spec(sample_point.x.abs_spec());
    let ey = params.half_extent.y.sub_spec(sample_point.y.abs_spec());
    let wx = params.kernel.influence_spec(ex.mul_spec(ex), h);
    let wy = params.kernel.influence_spec(ey.mul_spec(ey), h);
    params.kernel.lemma_influence_nonneg(ex.mul_spec(ex), h);
    params.kernel.lemma_influence_nonneg(ey.mul_spec(ey), h);
    params.kernel.lemma_self_density_positive(h);
    let ratio = Fixed { raw: crate::physics::RAW_EDGE_RATIO };
    ratio.lemma_mul_nonneg(params.target_density);
    let level = ratio.mul_spec(params.target_density);
    level.lemma_div_nonneg(params.kernel.self_density_spec(h));
    wx.add_spec(wy).lemma_mul_nonneg(level.div_spec(params.kernel.self_density_spec(h)));
}

/// Brings the density and the pressure of every particle up to date, from
/// the predicted position of the particle and the positions of the others.
pub fn update_densities_and_pressures(
    particles: &mut Vec<Particle>,
    damping: &StartupDamping,
    params: &SimulationParameters,
)
    ensures
        final(particles)@.len() == old(particles)@.len(),
        forall|i: int|
            0 <= i < old(particles)@.len() ==> #[trigger] final(particles)@[i] == evaluated_spec(
                old(particles)@,
                i,
                damping.0,
                params,
            ),
        params.well_formed() ==> forall|i: int|
            0 <= i < old(particles)@.len() ==> (#[trigger] final(particles)@[i]).density.0.raw
                >= params.kernel.self_density(params.smoothing_radius).raw > 0,
{
    let n = particles.len();
    let mut densities: Vec<Fixed> = Vec::new();
    let mut i: usize = 0;
    while i < n
        invariant
            i <= n,
            n == particles@.len(),
            particles@ == old(particles)@,
            densities@.len() == i,
            forall|k: int|
                #![trigger densities@[k]]
                #![trigger density_spec(particles@, k, params)]
                0 <= k < i ==> densities@[k] == density_spec(particles@, k, params),
            params.well_formed() ==> forall|k: int|
                #![trigger densities@[k]]
                #![trigger density_spec(particles@, k, params)]
                0 <= k < i ==> density_spec(particles@, k, params).raw
                    >= params.kernel.self_density(params.smoothing_radius).raw > 0,
        decreases n - i,
    {
        let density = density_at(particles, i, params);
        densities.push(density);
        i = i + 1;
    }
    let pressure_multiplier = damping.0.mul(params.pressure_multiplier);
    let mut i: usize = 0;
    while i < n
        invariant
            i <= n,
            n == particles@.len(),
            n == old(particles)@.len(),
            n == densities@.len(),
            pressure_multiplier == damping.0.mul(params.pressure_multiplier),
            forall|k: int|
                #![trigger densities@[k]]
                #![trigger density_spec(old(particles)@, k, params)]
                0 <= k < n ==> densities@[k] == density_spec(old(particles)@, k, params),
            params.well_formed() ==> forall|k: int|
                #![trigger densities@[k]]
                #![trigger density_spec(old(particles)@, k, params)]
                0 <= k < n ==> density_spec(old(particles)@, k, params).raw
                    >= params.kernel.self_density(params.smoothing_radius).raw > 0,
            forall|k: int|
                0 <= k < i ==> #[trigger] particles@[k] == evaluated_spec(
                    old(particles)@,
                    k,
                    damping.0,
                    params,
                ),
            forall|k: int| i <= k < n ==> particles@[k] == #[trigger] old(particles)@[k],
        decreases n - i,
    {
        let density = densities[i];
        particles[i].density = ParticleDensity(density);
        particles[i].pressure = ParticlePressure(
            density_to_pressure(density, pressure_multiplier, params),
        );
        i = i + 1;
    }
}

/// What particle `other` adds to the pressure gradient at particle `x`:
/// the gradient of the kernel between them, weighted by the mean of the two
/// pressures and divided by the density at `other`.
pub open spec fn pair_pressure_spec(
    x: Particle,
    other: Particle,
    fallback: Vec2,
    params: &SimulationParameters,
) -> Vec2 {
    let displacement = x.predicted_position.0.sub(other.predicted_position.0);
    let shared_pressure = (Fixed { raw: RAW_HALF }).mul(x.pressure.0.add(other.pressure.0));
    params.kernel.gradient_spec(displacement, params.smoothing_radius, fallback).scale(
        shared_pressure,
    ).div(other.density.0)
}

/// What particle `other` adds to the viscosity force on particle `x`: the
/// difference of the velocities, weighted by the kernel and the viscosity.
pub open spec fn pair_viscosity_spec(
    x: Particle,
    other: Particle,
    params: &SimulationParameters,
) -> Vec2 {
    let displacement = x.predicted_position.0.sub(other.predicted_position.0);
    other.velocity.0.sub(x.velocity.0).scale(
        params.kernel.influence(displacement.length_squared(), params.smoothing_radius),
    ).scale(params.viscosity)
}

/// Pressure gradient at particle `i` from the particles that `fallbacks` has
/// a direction for, `i` itself left out.
pub open spec fn pressure_gradient_spec(
    particles: Seq<Particle>,
    i: int,
    fallbacks: Seq<Vec2>,
    params: &SimulationParameters,
) -> Vec2
    decreases fallbacks.len(),
{
    if fallbacks.len() == 0 {
        Vec2::zero()
    } else {
        let j = fallbacks.len() - 1;
        let rest = pressure_gradient_spec(particles, i, fallbacks.drop_last(), params);
        if j == i {
            rest
        } else {
            rest.add(pair_pressure_spec(particles[i], particles[j], fallbacks[j], params))
        }
    }
}

/// Viscosity force on particle `i` from the first `n` particles, `i` itself
/// left out.
pub open spec fn viscosity_force_spec(
    particles: Seq<Particle>,
    i: int,
    n: int,
    params: &SimulationParameters,
) -> Vec2
    decreases n,
{
    if n <= 0 {
        Vec2::zero()
    } else {
        let rest = viscosity_force_spec(particles, i, n - 1, params);
        if n - 1 == i {
            rest
        } else {
            rest.add(pair_viscosity_spec(particles[i], particles[n - 1], params))
        }
    }
}

/// Acceleration of particle `i`: the pressure gradient over the density
/// and the push of the walls, both damped, then viscosity, then gravity.
/// `fallbacks` holds one direction for each particle and two for the walls.
pub open spec fn acceleration_spec(
    particles: Seq<Particle>,
    i: int,
    fallbacks: Seq<Vec2>,
    damping: Fixed,
    params: &SimulationParameters,
) -> Vec2 {
    let n = particles.len() as int;
    let x = particles[i];
    let pressure_gradient = pressure_gradient_spec(particles, i, fallbacks.take(n), params);
    let viscosity_force = viscosity_force_spec(particles, i, n, params);
    let edge = if params.edge_repulsion {
        compute_edge_acceleration_spec(
            x.predicted_position.0,
            x.density.0,
            params.pressure_multiplier,
            params,
            fallbacks[n],
            fallbacks[n + 1],
        )
    } else {
        Vec2::zero()
    };
    let acc = pressure_gradient.div(x.density.0).add(edge).scale(damping).add(viscosity_force);
    Vec2 { x: acc.x, y: acc.y.sub(params.gravity) }
}

/// Whether `dir` may stand in for the direction of `displacement`: any
/// direction where the displacement is singular, the first axis elsewhere.
pub open spec fn fallback_admissible(displacement: Vec2, h: Fixed, dir: Vec2) -> bool {
    dir.is_direction() && (!is_singular(displacement, h) ==> dir == Vec2::x_axis())
}

/// Whether `fallbacks` may be the directions that the acceleration of
/// particle `i` is computed with.
pub open spec fn fallbacks_admissible(
    particles: Seq<Particle>,
    i: int,
    fallbacks: Seq<Vec2>,
    params: &SimulationParameters,
) -> bool {
    let n = particles.len() as int;
    let h = params.smoothing_radius;
    let at = particles[i].predicted_position.0;
    &&& fallbacks.len() == n + 2
    &&& forall|k: int|
        0 <= k < n ==> if k == i {
            #[trigger] fallbacks[k] == Vec2::x_axis()
        } else {
            fallback_admissible(at.sub(particles[k].predicted_position.0), h, fallbacks[k])
        }
    &&& if params.edge_repulsion {
        &&& fallback_admissible(
            Vec2 { x: wall_offset_spec(at.x, params.half_extent.x), y: Fixed::zero() },
            h,
            fallbacks[n],
        )
        &&& fallback_admissible(
            Vec2 { x: Fixed::zero(), y: wall_offset_spec(at.y, params.half_extent.y) },
            h,
            fallbacks[n + 1],
        )
    } else {
        fallbacks[n] == Vec2::x_axis() && fallbacks[n + 1] == Vec2::x_axis()
    }
}

/// Whether `acc` is the acceleration of particle `i` for some admissible
/// choice of directions.
pub open spec fn is_acceleration(
    particles: Seq<Particle>,
    i: int,
    damping: Fixed,
    params: &SimulationParameters,
    acc: Vec2,
) -> bool {
    exists|fallbacks: Seq<Vec2>|
        fallbacks_admissible(particles, i, fallbacks, params) && acc == #[trigger] acceleration_spec(
            particles,
            i,
            fallbacks,
            damping,
            params,
        )
}

/// Acceleration of particle `i` with given directions.
pub fn acceleration_toward(
    particles: &Vec<Particle>,
    i: usize,
    fallbacks: &Vec<Vec2>,
    damping: &StartupDamping,
    params: &SimulationParameters,
) -> (r: Vec2)
    requires
        i < particles.len(),
        fallbacks.len() == particles.len() + 2,
    ensures
        r == acceleration_spec(particles@, i as int, fallbacks@, damping.0, params),
{
    let n = particles.len();
    let h = params.smoothing_radius;
    let x = particles[i];
    let pos_x = x.predicted_position.0;
    let mut pressure_gradient = Vec2::zero();
    let mut viscosity_force = Vec2::zero();
    let mut j: usize = 0;
    while j < n
        invariant
            j <= n,
            i < n,
            n == particles.len(),
            fallbacks.len() == n + 2,
            h == params.smoothing_radius,
            x == particles@[i as int],
            pos_x == x.predicted_position.0,
            pressure_gradient == pressure_gradient_spec(
                particles@,
                i as int,
                fallbacks@.take(j as int),
                params,
            ),
            viscosity_force == viscosity_force_spec(particles@, i as int, j as int, params),
        decreases n - j,
    {
        proof {
            assert(fallbacks@.take(j + 1).drop_last() =~= fallbacks@.take(j as int));
        }
        if j != i {
            let other = particles[j];
            let displacement = pos_x.sub(other.predicted_position.0);
            let shared_pressure = (Fixed { raw: RAW_HALF }).mul(x.pressure.0.add(other.pressure.0));
            pressure_gradient = pressure_gradient.add(
                params.kernel.gradient_toward(displacement, h, fallbacks[j]).scale(
                    shared_pressure,
                ).div(other.density.0),
            );
            viscosity_force = viscosity_force.add(
                other.velocity.0.sub(x.velocity.0).scale(
                    params.kernel.influence(displacement.length_squared(), h),
                ).scale(params.viscosity),
            );
        }
        j = j + 1;
    }
    let edge = if params.edge_repulsion {
        compute_edge_acceleration_toward(
            &pos_x,
            x.density.0,
            params.pressure_multiplier,
            params,
            fallbacks[n],
            fallbacks[n + 1],
        )
    } else {
        Vec2::zero()
    };
    let mut acc = pressure_gradient.div(x.density.0).add(edge).scale(damping.0).add(
        viscosity_force,
    );
    acc.y = acc.y.sub(params.gravity);
    acc
}

/// Picks the directions that the acceleration of particle `i` is computed
/// with: a random one wherever a displacement is singular.
pub fn draw_fallbacks(particles: &Vec<Particle>, i: usize, params: &SimulationParameters) -> (r:
    Vec<Vec2>)
    requires
        i < particles.len(),
        particles.len() + 2 <= usize::MAX,
    ensures
        fallbacks_admissible(particles@, i as int, r@, params),
{
    let n = particles.len();
    let h = params.smoothing_radius;
    let at = particles[i].predicted_position.0;
    let mut fallbacks: Vec<Vec2> = Vec::new();
    let mut k: usize = 0;
    while k < n
        invariant
            k <= n,
            i < n,
            n == particles.len(),
            h == params.smoothing_radius,
            at == particles@[i as int].predicted_position.0,
            fallbacks@.len() == k,
            forall|m: int|
                0 <= m < k ==> if m == i {
                    #[trigger] fallbacks@[m] == Vec2::x_axis()
                } else {
                    fallback_admissible(
                        at.sub(particles@[m].predicted_position.0),
                        h,
                        fallbacks@[m],
                    )
                },
        decreases n - k,
    {
        let dir = if k == i {
            Vec2::x_axis()
        } else {
            fallback_direction(at.sub(particles[k].predicted_position.0), h)
        };
        fallbacks.push(dir);
        k = k + 1;
    }
    if params.edge_repulsion {
        fallbacks.push(
            fallback_direction(
                Vec2 { x: wall_offset(at.x, params.half_extent.x), y: Fixed::zero() },
                h,
            ),
        );
        fallbacks.push(
            fallback_direction(
                Vec2 { x: Fixed::zero(), y: wall_offset(at.y, params.half_extent.y) },
                h,
            ),
        );
    } else {
        fallbacks.push(Vec2::x_axis());
        fallbacks.push(Vec2::x_axis());
    }
    fallbacks
}

/// Acceleration of particle `i`; wherever a displacement is singular, its
/// direction is drawn at random.
pub fn acceleration_at(
    particles: &Vec<Particle>,
    i: usize,
    damping: &StartupDamping,
    params: &SimulationParameters,
) -> (r: Vec2)
    requires
        i < particles.len(),
        particles.len() + 2 <= usize::MAX,
    ensures
        is_acceleration(particles@, i as int, damping.0, params, r),
{
    let fallbacks = draw_fallbacks(particles, i, params);
    acceleration_toward(particles, i, &fallbacks, damping, params)
}

/// Brings the acceleration of every particle up to date, from the predicted
/// positions, velocities, pressures and densities of all of them.
pub fn update_accelerations(
    particles: &mut Vec<Particle>,
    damping: &StartupDamping,
    params: &SimulationParameters,
)
    requires
        old(particles)@.len() + 2 <= usize::MAX,
    ensures
        final(particles)@.len() == old(particles)@.len(),
        forall|i: int|
            0 <= i < old(particles)@.len() ==> {
                let after = #[trigger] final(particles)@[i];
                &&& is_acceleration(old(particles)@, i, damping.0, params, after.acceleration.0)
                &&& after == Particle { acceleration: after.acceleration, ..old(particles)@[i] }
            },
{
    let n = particles.len();
    let mut accelerations: Vec<Vec2> = Vec::new();
    let mut i: usize = 0;
    while i < n
        invariant
            i <= n,
            n == particles@.len(),
            n + 2 <= usize::MAX,
            particles@ == old(particles)@,
            accelerations@.len() == i,
            forall|k: int|
                0 <= k < i ==> is_acceleration(
                    particles@,
                    k,
                    damping.0,
                    params,
                    #[trigger] accelerations@[k],
                ),
        decreases n - i,
    {
        let acc = acceleration_at(particles, i, damping, params);
        accelerations.push(acc);
        i = i + 1;
    }
    let mut i: usize = 0;
    while i < n
        invariant
            i <= n,
            n == particles@.len(),
            n == old(particles)@.len(),
            n == accelerations@.len(),
            forall|k: int|
                0 <= k < n ==> is_acceleration(
                    old(particles)@,
                    k,
                    damping.0,
                    params,
                    #[trigger] accelerations@[k],
                ),
            forall|k: int|
                0 <= k < i ==> #[trigger] particles@[k] == (Particle {
                    acceleration: ParticleAcceleration(accelerations@[k]),
                    ..old(particles)@[k]
                }),
            forall|k: int| i <= k < n ==> particles@[k] == #[trigger] old(particles)@[k],
        decreases n - i,
    {
        particles[i].acceleration = ParticleAcceleration(accelerations[i]);
        i = i + 1;
    }
}

/// The box that new particles are put in: half the box of the run along
/// each axis.
pub open spec fn spawn_extent_spec(params: &SimulationParameters) -> (Fixed, Fixed) {
    (
        params.half_extent.x.mul(Fixed { raw: RAW_HALF }),
        params.half_extent.y.mul(Fixed { raw: RAW_HALF }),
    )
}

/// Whether `p` is a particle at rest that has not made a step yet, at a
/// position of the box that reaches `extent` to each side of the origin.
pub open spec fn is_spawned(p: Particle, extent: (Fixed, Fixed)) -> bool {
    p == Particle::fresh_spec(p.position.0, Vec2::zero()) && within_box(
        (p.position.0.x, p.position.0.y),
        extent,
    )
}

/// The box that new particles are put in: half the box of the run along
/// each axis.
#[verifier::when_used_as_spec(spawn_extent_spec)]
pub fn spawn_extent(params: &SimulationParameters) -> (r: (Fixed, Fixed))
    ensures
        r == spawn_extent_spec(params),
{
    (
        params.half_extent.x.mul(Fixed { raw: RAW_HALF }),
        params.half_extent.y.mul(Fixed { raw: RAW_HALF }),
    )
}

/// Makes `count` particles at rest at random positions of the inner half of
/// the box.
pub fn spawn(count: usize, params: &SimulationParameters) -> (r: Vec<Particle>)
    requires
        spawn_extent_spec(params).0.raw > 0,
        spawn_extent_spec(params).1.raw > 0,
    ensures
        r@.len() == count,
        forall|i: int| 0 <= i < count ==> is_spawned(#[trigger] r@[i], spawn_extent_spec(params)),
{
    let extent = spawn_extent(params);
    let mut particles: Vec<Particle> = Vec::new();
    let mut i: usize = 0;
    while i < count
        invariant
            i <= count,
            particles@.len() == i,
            extent == spawn_extent_spec(params),
            extent.0.raw > 0,
            extent.1.raw > 0,
            forall|k: int| 0 <= k < i ==> is_spawned(#[trigger] particles@[k], extent),
        decreases count - i,
    {
        let (x, y) = point_in_box(extent);
        particles.push(Particle::new(Vec2 { x, y }));
        i = i + 1;
    }
    particles
}

/// Puts every particle back at rest at a random position of the box, as one
/// that has not made a step yet.
pub fn respawn(particles: &mut Vec<Particle>, params: &SimulationParameters)
    requires
        params.half_extent.x.raw > 0,
        params.half_extent.y.raw > 0,
    ensures
        final(particles)@.len() == old(particles)@.len(),
        forall|i: int|
            0 <= i < old(particles)@.len() ==> is_spawned(
                #[trigger] final(particles)@[i],
                (params.half_extent.x, params.half_extent.y),
            ),
{
    let n = particles.len();
    let extent = (params.half_extent.x, params.half_extent.y);
    let mut i: usize = 0;
    while i < n
        invariant
            i <= n,
            n == particles@.len(),
            n == old(particles)@.len(),
            extent == (params.half_extent.x, params.half_extent.y),
            extent.0.raw > 0,
            extent.1.raw > 0,
            forall|k: int| 0 <= k < i ==> is_spawned(#[trigger] particles@[k], extent),
        decreases n - i,
    {
        let (x, y) = point_in_box(extent);
        particles[i].reset(Vec2 { x, y }, Vec2::zero());
        i = i + 1;
    }
}

/// Whether particle `j` lies beyond the smoothing radius of where particle
/// `i` is heading.
pub open spec fn out_of_reach(
    particles: Seq<Particle>,
    i: int,
    j: int,
    params: &SimulationParameters,
) -> bool {
    particles[i].predicted_position.0.sub_spec(particles[j].position.0).length_squared_spec().raw
        > params.smoothing_radius.mul_spec(params.smoothing_radius).raw
}

/// Where the walls do not repel and none of the first `n` particles lies
/// within the smoothing radius of particle `i`, they add no density to it.
pub proof fn lemma_no_neighbours(
    particles: Seq<Particle>,
    i: int,
    n: int,
    params: &SimulationParameters,
)
    requires
        0 <= i < particles.len(),
        0 <= n <= particles.len(),
        !params.edge_repulsion,
        forall|j: int| 0 <= j < n && j != i ==> out_of_reach(particles, i, j, params),
    ensures
        neighbour_density_spec(particles, i, n, params) == Fixed::zero_spec(),
    decreases n,
{
    if n > 0 {
        lemma_no_neighbours(particles, i, n - 1, params);
        if n - 1 != i {
            assert(out_of_reach(particles, i, n - 1, params));
        }
    }
}

/// An isolated particle: where the walls do not repel and no other particle
/// lies within the smoothing radius, the density is what the particle adds
/// to itself, and the pressure follows from that density alone.
pub proof fn lemma_isolated_particle(
    particles: Seq<Particle>,
    i: int,
    damping: Fixed,
    params: &SimulationParameters,
)
    requires
        0 <= i < particles.len(),
        !params.edge_repulsion,
        forall|j: int|
            0 <= j < particles.len() && j != i ==> out_of_reach(particles, i, j, params),
    ensures
        density_spec(particles, i, params) == params.kernel.self_density_spec(
            params.smoothing_radius,
        ),
        evaluated_spec(particles, i, damping, params).pressure.0
            == params.kernel.self_density_spec(params.smoothing_radius).sub_spec(
            params.target_density,
        ).mul_spec(damping.mul_spec(params.pressure_multiplier)),
{
    lemma_no_neighbours(particles, i, particles.len() as int, params);
}

/// A particle at rest stays at rest: with no velocity, no acceleration and
/// no move behind it, a step of any length leaves it as it is. One that has
/// made no step yet still has made none.
pub proof fn lemma_rest_particle(p: Particle, dt: Fixed, params: &SimulationParameters)
    requires
        p.velocity.0 == Vec2::zero_spec(),
        p.acceleration.0 == Vec2::zero_spec(),
        p.prev_position.0 == Some(p.position.0) || p.prev_position.0.is_none(),
    ensures
        p.integrated_spec(dt, params) == p,
{
    lemma_rest_is_kept(p.prev_position.0, p.position.0, dt, params);
}

/// A particle gets a previous position with the first step on which it
/// moves, and never loses it by a step or a prediction.
pub proof fn lemma_previous_position(p: Particle, dt: Fixed, params: &SimulationParameters)
    ensures
        p.integrated_spec(dt, params).prev_position.0.is_some() == (p.prev_position.0.is_some()
            || verlet_spec(
            p.prev_position.0,
            p.position.0,
            p.velocity.0,
            p.acceleration.0,
            dt,
            params,
        ).moved),
        p.predicted_spec(params).prev_position == p.prev_position,
{
}

/// Two particles weigh each other's pressure alike: each takes the mean of
/// the two pressures.
pub proof fn lemma_shared_pressure(a: Particle, b: Particle)
    ensures
        (Fixed { raw: RAW_HALF }).mul_spec(a.pressure.0.add_spec(b.pressure.0)) == (Fixed {
            raw: RAW_HALF,
        }).mul_spec(b.pressure.0.add_spec(a.pressure.0)),
{
}

/// Two particles of equal density push each other with opposite pressure
/// gradients, provided that, where they lie too close to have a direction,
/// opposite directions are taken for them.
pub proof fn lemma_pair_pressure_opposite(
    a: Particle,
    b: Particle,
    toward_a: Vec2,
    toward_b: Vec2,
    params: &SimulationParameters,
)
    requires
        a.density.0 == b.density.0,
        a.density.0.in_range(),
        toward_a.in_range(),
        is_singular(
            a.predicted_position.0.sub_spec(b.predicted_position.0),
            params.smoothing_radius,
        ) ==> toward_b == toward_a.neg_spec(),
    ensures
        pair_pressure_spec(b, a, toward_b, params) == pair_pressure_spec(
            a,
            b,
            toward_a,
            params,
        ).neg_spec(),
{
    let h = params.smoothing_radius;
    let displacement = a.predicted_position.0.sub_spec(b.predicted_position.0);
    let back = b.predicted_position.0.sub_spec(a.predicted_position.0);
    assert(back == displacement.neg_spec());
    let shared = (Fixed { raw: RAW_HALF }).mul_spec(a.pressure.0.add_spec(b.pressure.0));
    params.kernel.lemma_gradient_opposite(displacement, h, toward_a, toward_b);
    params.kernel.gradient_spec(displacement, h, toward_a).lemma_weighted_neg(
        shared,
        a.density.0,
    );
}

/// Two particles drag on each other with opposite viscosity forces.
pub proof fn lemma_pair_viscosity_opposite(a: Particle, b: Particle, params: &SimulationParameters)
    requires
        params.viscosity.in_range(),
    ensures
        pair_viscosity_spec(b, a, params) == pair_viscosity_spec(a, b, params).neg_spec(),
{
    let h = params.smoothing_radius;
    let displacement = a.predicted_position.0.sub_spec(b.predicted_position.0);
    let back = b.predicted_position.0.sub_spec(a.predicted_position.0);
    assert(back == displacement.neg_spec());
    displacement.lemma_neg(Fixed::zero_spec());
    let weight = params.kernel.influence_spec(displacement.length_squared_spec(), h);
    params.kernel.lemma_influence_nonneg(displacement.length_squared_spec(), h);
    let difference = b.velocity.0.sub_spec(a.velocity.0);
    assert(a.velocity.0.sub_spec(b.velocity.0) == difference.neg_spec());
    difference.lemma_neg(weight);
    difference.scale_spec(weight).lemma_neg(params.viscosity);
}

/// A particle alone in a box whose walls do not repel, with no gravity, is
/// not accelerated.
pub proof fn lemma_lone_acceleration(
    particles: Seq<Particle>,
    fallbacks: Seq<Vec2>,
    damping: Fixed,
    params: &SimulationParameters,
)
    requires
        particles.len() == 1,
        fallbacks.len() == 3,
        params.gravity.raw == 0,
        !params.edge_repulsion,
    ensures
        acceleration_spec(particles, 0, fallbacks, damping, params) == Vec2::zero_spec(),
{
    let first = fallbacks.take(1);
    assert(first.len() == 1);
    assert(first.drop_last().len() == 0);
    assert(pressure_gradient_spec(particles, 0, first.drop_last(), params) == Vec2::zero_spec());
    assert(pressure_gradient_spec(particles, 0, first, params) == Vec2::zero_spec());
    assert(viscosity_force_spec(particles, 0, 0, params) == Vec2::zero_spec());
    assert(viscosity_force_spec(particles, 0, 1, params) == Vec2::zero_spec());
    damping.lemma_mul_zero();
    let zero = Vec2::zero_spec();
    particles[0].density.0.lemma_zero_div();
    assert(zero.scale_spec(damping) == zero);
}

/// Whether no displacement that the acceleration of particle `i` depends
/// on is singular.
pub open spec fn is_regular(particles: Seq<Particle>, i: int, params: &SimulationParameters) -> bool {
    let h = params.smoothing_radius;
    let at = particles[i].predicted_position.0;
    &&& forall|k: int|
        0 <= k < particles.len() && k != i ==> !is_singular(
            at.sub_spec((#[trigger] particles[k]).predicted_position.0),
            h,
        )
    &&& params.edge_repulsion ==> {
        &&& !is_singular(
            Vec2 { x: wall_offset_spec(at.x, params.half_extent.x), y: Fixed::zero_spec() },
            h,
        )
        &&& !is_singular(
            Vec2 { x: Fixed::zero_spec(), y: wall_offset_spec(at.y, params.half_extent.y) },
            h,
        )
    }
}

/// Where no displacement is singular, nothing is left to chance: the
/// acceleration of a particle is the one computed with the first axis for
/// every direction.
pub proof fn lemma_regular_acceleration(
    particles: Seq<Particle>,
    i: int,
    damping: Fixed,
    params: &SimulationParameters,
    acc: Vec2,
)
    requires
        0 <= i < particles.len(),
        is_regular(particles, i, params),
    ensures
        is_acceleration(particles, i, damping, params, acc) <==> acc == acceleration_spec(
            particles,
            i,
            Seq::new(particles.len() + 2, |k: int| Vec2::x_axis_spec()),
            damping,
            params,
        ),
{
    let n = particles.len() as int;
    let plain = Seq::new(particles.len() + 2, |k: int| Vec2::x_axis_spec());
    Vec2::lemma_x_axis_is_direction();
    assert(fallbacks_admissible(particles, i, plain, params));
    if is_acceleration(particles, i, damping, params, acc) {
        let fallbacks = choose|fallbacks: Seq<Vec2>|
            fallbacks_admissible(particles, i, fallbacks, params) && acc
                == #[trigger] acceleration_spec(particles, i, fallbacks, damping, params);
        assert forall|k: int| 0 <= k < n + 2 implies fallbacks[k] == plain[k] by {
            if k < n && k != i {
                let other = particles[k];
                assert(fallback_admissible(
                    particles[i].predicted_position.0.sub_spec(other.predicted_position.0),
                    params.smoothing_radius,
                    fallbacks[k],
                ));
            }
        }
        assert(fallbacks =~= plain);
    }
}

} // verus!
