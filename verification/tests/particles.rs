use fluid_box::fixed::Fixed;
use fluid_box::kernel::Kernel;
use fluid_box::params::SimulationParameters;
use fluid_box::particle::{
    acceleration_at, acceleration_toward, count, density_at, draw_fallbacks, predict_positions,
    respawn, spawn, spawn_extent, update_accelerations, update_densities_and_pressures,
    update_positions, Particle, ParticleAcceleration, ParticleDensity, ParticlePosition,
    ParticlePressure, ParticleVelocity, PredictedParticlePosition, PrevParticlePosition,
};
use fluid_box::physics::{density_to_pressure, StartupDamping};
use fluid_box::vec2::Vec2;
use std::f64::consts::PI;

fn fx(x: f64) -> Fixed {
    Fixed::from_raw((x * 4294967296.0).round() as i64)
}

fn val(f: Fixed) -> f64 {
    f.raw() as f64 / 4294967296.0
}

fn near(f: Fixed, expected: f64) -> bool {
    (val(f) - expected).abs() < 1e-6
}

fn v2(x: f64, y: f64) -> Vec2 {
    Vec2::new(fx(x), fx(y))
}

fn params(kernel: Kernel) -> SimulationParameters {
    SimulationParameters {
        smoothing_radius: fx(1.0),
        target_density: fx(1.0),
        pressure_multiplier: fx(10.0),
        viscosity: fx(0.0),
        gravity: fx(0.0),
        restitution: fx(1.0),
        half_extent: v2(6.0, 3.5),
        particle_radius: fx(0.05),
        kernel,
        edge_repulsion: false,
        startup_damping: false,
        startup_interval: fx(2.0),
    }
}

/// A particle whose predicted position is its position.
fn at(x: f64, y: f64) -> Particle {
    let mut p = Particle::new(v2(x, y));
    p.predicted_position = PredictedParticlePosition(v2(x, y));
    p
}

fn moving(x: f64, y: f64, vx: f64, vy: f64) -> Particle {
    let mut p = at(x, y);
    p.velocity = ParticleVelocity(v2(vx, vy));
    p
}

#[test]
fn a_new_particle_has_made_no_step() {
    let p = Particle::new(v2(1.5, -2.0));
    assert_eq!(p.position.0, v2(1.5, -2.0));
    assert_eq!(p.prev_position.0, None);
    assert_eq!(p.predicted_position.0, Vec2::zero());
    assert_eq!(p.velocity.0, Vec2::zero());
    assert_eq!(p.acceleration.0, Vec2::zero());
    assert_eq!(p.density.0, Fixed::zero());
    assert_eq!(p.pressure.0, Fixed::zero());
}

#[test]
fn a_reset_particle_has_made_no_step() {
    let mut p = Particle {
        density: ParticleDensity(fx(3.0)),
        pressure: ParticlePressure(fx(-2.0)),
        prev_position: PrevParticlePosition(Some(v2(1.0, 1.0))),
        position: ParticlePosition(v2(1.25, 1.0)),
        predicted_position: PredictedParticlePosition(v2(1.5, 1.0)),
        velocity: ParticleVelocity(v2(4.0, 0.0)),
        acceleration: ParticleAcceleration(v2(0.0, -9.0)),
    };
    p.reset(v2(-2.0, 0.5), v2(0.25, 0.0));
    assert_eq!(p.position.0, v2(-2.0, 0.5));
    assert_eq!(p.velocity.0, v2(0.25, 0.0));
    assert_eq!(p.prev_position.0, None);
    assert_eq!(p.predicted_position.0, Vec2::zero());
    assert_eq!(p.acceleration.0, Vec2::zero());
    assert_eq!(p.density.0, Fixed::zero());
    assert_eq!(p.pressure.0, Fixed::zero());
}

#[test]
fn prediction_steps_a_sixtieth_ahead_and_changes_nothing_else() {
    let p = params(Kernel::Spiky2);
    let mut particles = vec![moving(0.0, 0.0, 6.0, -3.0), at(1.0, 1.0)];
    particles[1].prev_position = PrevParticlePosition(Some(v2(0.75, 1.0)));
    predict_positions(&mut particles, &p);
    assert!(near(particles[0].predicted_position.0.x, 0.1));
    assert!(near(particles[0].predicted_position.0.y, -0.05));
    assert_eq!(particles[0].position.0, v2(0.0, 0.0));
    assert_eq!(particles[0].prev_position.0, None);
    assert_eq!(particles[0].velocity.0, v2(6.0, -3.0));
    assert_eq!(particles[1].predicted_position.0, v2(1.25, 1.0));
    assert_eq!(particles[1].position.0, v2(1.0, 1.0));
    assert_eq!(particles[1].prev_position.0, Some(v2(0.75, 1.0)));
}

#[test]
fn an_isolated_particle_has_its_own_density() {
    for kernel in [Kernel::Smooth6, Kernel::Spiky2] {
        let p = params(kernel);
        let damping = StartupDamping(fx(0.25));
        let mut particles = vec![at(0.5, -0.5)];
        update_densities_and_pressures(&mut particles, &damping, &p);
        let own = kernel.self_density(fx(1.0));
        assert_eq!(particles[0].density.0, own);
        assert_eq!(particles[0].pressure.0, own.sub(fx(1.0)).mul(fx(0.25).mul(fx(10.0))));
        assert_eq!(particles[0].pressure.0, density_to_pressure(own, fx(2.5), &p));
        assert_eq!(density_at(&particles, 0, &p), own);
    }
    let p = params(Kernel::Smooth6);
    let mut particles = vec![at(0.0, 0.0)];
    update_densities_and_pressures(&mut particles, &StartupDamping(fx(1.0)), &p);
    assert!(near(particles[0].density.0, 4.0 / PI));
    assert!(near(particles[0].pressure.0, (4.0 / PI - 1.0) * 10.0));
}

#[test]
fn particles_out_of_reach_add_no_density() {
    let p = params(Kernel::Spiky2);
    let mut particles = vec![at(0.0, 0.0), at(1.5, 0.0), at(0.0, -2.0), at(-0.8, 0.8)];
    update_densities_and_pressures(&mut particles, &StartupDamping(fx(1.0)), &p);
    let own = Kernel::Spiky2.self_density(fx(1.0));
    for particle in &particles {
        assert_eq!(particle.density.0, own);
    }
}

#[test]
fn neighbours_add_their_influence_to_the_density() {
    let p = params(Kernel::Spiky2);
    let mut particles = vec![at(-0.1, 0.0), at(0.1, 0.0)];
    update_densities_and_pressures(&mut particles, &StartupDamping(fx(1.0)), &p);
    let expected = 6.0 / PI + 6.0 / PI * 0.8 * 0.8;
    assert!(near(particles[0].density.0, expected));
    assert!(near(particles[0].pressure.0, (expected - 1.0) * 10.0));
    assert_eq!(particles[0].density.0, particles[1].density.0);
    assert_eq!(particles[0].pressure.0, particles[1].pressure.0);
    assert_eq!(particles[0].position.0, v2(-0.1, 0.0));
    assert_eq!(particles[1].position.0, v2(0.1, 0.0));
}

#[test]
fn the_density_is_taken_at_the_predicted_position() {
    let p = params(Kernel::Smooth6);
    let mut particles = vec![at(0.0, 0.0), at(0.5, 0.0)];
    // heading out of reach of the other particle
    particles[0].predicted_position = PredictedParticlePosition(v2(-0.6, 0.0));
    update_densities_and_pressures(&mut particles, &StartupDamping(fx(1.0)), &p);
    assert_eq!(particles[0].density.0, Kernel::Smooth6.self_density(fx(1.0)));
    // the other particle is still weighed by where the first one is
    let expected = 4.0 / PI + 4.0 / PI * 0.75f64.powi(3);
    assert!(near(particles[1].density.0, expected));
}

#[test]
fn a_particle_leaves_out_itself_and_not_what_lies_where_it_lies() {
    let p = params(Kernel::Smooth6);
    let mut particles = vec![at(0.25, 0.25), at(0.25, 0.25)];
    update_densities_and_pressures(&mut particles, &StartupDamping(fx(1.0)), &p);
    let own = Kernel::Smooth6.self_density(fx(1.0));
    assert_eq!(particles[0].density.0, own.add(own));
    assert_eq!(particles[1].density.0, own.add(own));
}

#[test]
fn the_density_is_at_least_what_a_particle_adds_to_itself() {
    for kernel in [Kernel::Smooth6, Kernel::Spiky2] {
        let p = SimulationParameters { edge_repulsion: true, ..params(kernel) };
        assert!(p.is_valid());
        let mut particles = vec![at(0.0, 0.0), at(0.3, 0.1), at(5.9, 3.4), at(-5.0, 0.0)];
        update_densities_and_pressures(&mut particles, &StartupDamping(fx(1.0)), &p);
        let own = kernel.self_density(fx(1.0));
        assert!(own.raw() > 0);
        for particle in &particles {
            assert!(particle.density.0.raw() >= own.raw());
        }
        assert!(particles[2].density.0.raw() > own.raw());
        assert_eq!(particles[3].density.0, own);
    }
}

fn evaluated_pair(kernel: Kernel) -> (Vec<Particle>, SimulationParameters, StartupDamping) {
    let p = params(kernel);
    let damping = StartupDamping(fx(1.0));
    let mut particles = vec![at(-0.1, 0.0), at(0.1, 0.0)];
    update_densities_and_pressures(&mut particles, &damping, &p);
    (particles, p, damping)
}

#[test]
fn two_particles_push_each_other_apart() {
    for kernel in [Kernel::Smooth6, Kernel::Spiky2] {
        let (mut particles, p, damping) = evaluated_pair(kernel);
        // denser than the target: the pressure is positive
        assert!(particles[0].pressure.0.raw() > 0);
        update_accelerations(&mut particles, &damping, &p);
        let a0 = particles[0].acceleration.0;
        let a1 = particles[1].acceleration.0;
        assert!(a0.x.raw() < 0);
        assert!(a1.x.raw() > 0);
        assert_eq!(a0.x, a1.x.neg());
        assert_eq!(a0.y, Fixed::zero());
        assert_eq!(a1.y, Fixed::zero());
    }
}

#[test]
fn the_push_has_the_size_the_formula_gives() {
    let (mut particles, p, damping) = evaluated_pair(Kernel::Spiky2);
    update_accelerations(&mut particles, &damping, &p);
    let density = 6.0 / PI + 6.0 / PI * 0.64;
    let pressure = (density - 1.0) * 10.0;
    let gradient = 12.0 / PI * (1.0 / 0.2 - 1.0) * 0.2;
    let expected = 0.5 * (pressure + pressure) * gradient / density / density;
    assert!((val(particles[1].acceleration.0.x) - expected).abs() < 1e-5);
    assert!((val(particles[0].acceleration.0.x) + expected).abs() < 1e-5);
}

#[test]
fn both_particles_of_a_pair_weigh_the_mean_of_their_pressures() {
    let p = params(Kernel::Spiky2);
    let damping = StartupDamping(fx(1.0));
    let mut particles = vec![at(-0.25, 0.0), at(0.25, 0.0)];
    particles[0].density = ParticleDensity(fx(2.0));
    particles[1].density = ParticleDensity(fx(2.0));
    particles[0].pressure = ParticlePressure(fx(3.0));
    particles[1].pressure = ParticlePressure(fx(5.0));
    let fallbacks = vec![Vec2::x_axis(); 4];
    let a0 = acceleration_toward(&particles, 0, &fallbacks, &damping, &p);
    let a1 = acceleration_toward(&particles, 1, &fallbacks, &damping, &p);
    let gradient = 12.0 / PI * (1.0 / 0.5 - 1.0) * 0.5;
    let expected = 0.5 * (3.0 + 5.0) * gradient / 2.0 / 2.0;
    assert!(near(a1.x, expected));
    assert!(near(a0.x, -expected));
    assert_eq!(a0, a1.neg());
    // with the pressures exchanged nothing changes
    particles[0].pressure = ParticlePressure(fx(5.0));
    particles[1].pressure = ParticlePressure(fx(3.0));
    assert_eq!(acceleration_toward(&particles, 0, &fallbacks, &damping, &p), a0);
    assert_eq!(acceleration_toward(&particles, 1, &fallbacks, &damping, &p), a1);
    assert_eq!(acceleration_at(&particles, 0, &damping, &p), a0);
    assert_eq!(acceleration_at(&particles, 1, &damping, &p), a1);
}

#[test]
fn a_density_under_the_target_pulls_particles_together() {
    let p = SimulationParameters { target_density: fx(10.0), ..params(Kernel::Spiky2) };
    let damping = StartupDamping(fx(1.0));
    let mut particles = vec![at(-0.1, 0.0), at(0.1, 0.0)];
    update_densities_and_pressures(&mut particles, &damping, &p);
    assert!(particles[0].pressure.0.raw() < 0);
    update_accelerations(&mut particles, &damping, &p);
    assert!(particles[0].acceleration.0.x.raw() > 0);
    assert!(particles[1].acceleration.0.x.raw() < 0);
}

#[test]
fn damping_scales_the_pressure_term() {
    let (mut particles, p, _) = evaluated_pair(Kernel::Spiky2);
    let mut halved = particles.clone();
    update_accelerations(&mut particles, &StartupDamping(fx(1.0)), &p);
    update_accelerations(&mut halved, &StartupDamping(fx(0.5)), &p);
    assert_eq!(halved[0].acceleration.0, particles[0].acceleration.0.scale(fx(0.5)));
    let mut undamped = halved.clone();
    update_accelerations(&mut undamped, &StartupDamping(fx(0.0)), &p);
    assert_eq!(undamped[0].acceleration.0, Vec2::zero());
}

#[test]
fn gravity_pulls_down_whatever_the_damping() {
    let p = SimulationParameters { gravity: fx(9.5), ..params(Kernel::Spiky2) };
    let mut particles = vec![at(0.0, 0.0)];
    update_densities_and_pressures(&mut particles, &StartupDamping(fx(0.0)), &p);
    update_accelerations(&mut particles, &StartupDamping(fx(0.0)), &p);
    assert_eq!(particles[0].acceleration.0, v2(0.0, -9.5));
}

#[test]
fn viscosity_pulls_velocities_together() {
    let p = SimulationParameters {
        viscosity: fx(0.5),
        pressure_multiplier: fx(0.0),
        ..params(Kernel::Smooth6)
    };
    let damping = StartupDamping(fx(0.0));
    let mut particles = vec![moving(0.0, 0.0, 1.0, 0.0), moving(0.5, 0.0, -1.0, 2.0)];
    update_densities_and_pressures(&mut particles, &damping, &p);
    update_accelerations(&mut particles, &damping, &p);
    let weight = 4.0 / PI * 0.75f64.powi(3);
    assert!(near(particles[0].acceleration.0.x, -2.0 * weight * 0.5));
    assert!(near(particles[0].acceleration.0.y, 2.0 * weight * 0.5));
    assert_eq!(particles[1].acceleration.0, particles[0].acceleration.0.neg());
    // velocities and positions are left alone
    assert_eq!(particles[0].velocity.0, v2(1.0, 0.0));
    assert_eq!(particles[1].position.0, v2(0.5, 0.0));
}

#[test]
fn the_walls_push_a_particle_near_them() {
    let p = SimulationParameters { edge_repulsion: true, ..params(Kernel::Smooth6) };
    let damping = StartupDamping(fx(1.0));
    let mut particles = vec![at(5.5, 0.0), at(0.0, 0.0)];
    update_densities_and_pressures(&mut particles, &damping, &p);
    update_accelerations(&mut particles, &damping, &p);
    assert!(particles[0].acceleration.0.x.raw() < 0);
    assert_eq!(particles[0].acceleration.0.y, Fixed::zero());
    assert_eq!(particles[1].acceleration.0, Vec2::zero());
}

#[test]
fn fallbacks_are_the_first_axis_unless_particles_coincide() {
    let p = params(Kernel::Spiky2);
    let particles = vec![at(0.0, 0.0), at(0.5, 0.0), at(3.0, 3.0)];
    for i in 0..3 {
        let fallbacks = draw_fallbacks(&particles, i, &p);
        assert_eq!(fallbacks, vec![Vec2::x_axis(); 5]);
    }
    let particles = vec![at(0.0, 0.0), at(0.0, 0.0)];
    let fallbacks = draw_fallbacks(&particles, 0, &p);
    assert_eq!(fallbacks.len(), 4);
    assert_eq!(fallbacks[0], Vec2::x_axis());
    assert!((val(fallbacks[1].length()) - 1.0).abs() < 1e-6);
    assert_eq!(fallbacks[2], Vec2::x_axis());
    assert_eq!(fallbacks[3], Vec2::x_axis());
}

#[test]
fn coinciding_particles_are_pushed_in_some_direction() {
    let p = params(Kernel::Spiky2);
    let damping = StartupDamping(fx(1.0));
    let mut particles = vec![at(1.0, 1.0), at(1.0, 1.0)];
    update_densities_and_pressures(&mut particles, &damping, &p);
    update_accelerations(&mut particles, &damping, &p);
    let density = 2.0 * 6.0 / PI;
    let expected = (density - 1.0) * 10.0 * (12.0 / PI) / density / density;
    for particle in &particles {
        assert!((val(particle.acceleration.0.length()) - expected).abs() < 1e-4);
    }
    let up = v2(0.0, 1.0);
    let fallbacks = vec![up, up, up, up];
    let acc = acceleration_toward(&particles, 0, &fallbacks, &damping, &p);
    assert_eq!(acc.x, Fixed::zero());
    assert!((val(acc.y) - expected).abs() < 1e-4);
}

#[test]
fn integration_moves_particles_and_measures_their_energy() {
    let p = params(Kernel::Spiky2);
    let mut particles = vec![moving(0.0, 0.0, 1.0, 0.0), moving(1.0, 1.0, 0.0, -2.0)];
    let average_ek = update_positions(&mut particles, fx(0.5), &p);
    assert_eq!(particles[0].position.0, v2(0.5, 0.0));
    assert_eq!(particles[0].prev_position.0, Some(v2(0.0, 0.0)));
    assert_eq!(particles[0].velocity.0, v2(1.0, 0.0));
    assert_eq!(particles[1].position.0, v2(1.0, 0.0));
    assert_eq!(particles[1].prev_position.0, Some(v2(1.0, 1.0)));
    assert_eq!(particles[1].velocity.0, v2(0.0, -2.0));
    assert_eq!(average_ek, fx(1.25));
}

#[test]
fn the_energy_of_no_particles_is_zero() {
    let p = params(Kernel::Spiky2);
    let mut particles: Vec<Particle> = Vec::new();
    assert_eq!(update_positions(&mut particles, fx(0.5), &p), Fixed::zero());
    assert_eq!(count(0), Fixed::zero());
    assert_eq!(count(200), Fixed::from_int(200));
}

#[test]
fn a_particle_at_rest_does_not_drift() {
    let p = params(Kernel::Spiky2);
    let mut rested = at(0.7, -1.3);
    rested.prev_position = PrevParticlePosition(Some(v2(0.7, -1.3)));
    let mut particles = vec![rested];
    let average_ek = update_positions(&mut particles, fx(0.016), &p);
    assert_eq!(particles[0].position.0, v2(0.7, -1.3));
    assert_eq!(particles[0].prev_position.0, Some(v2(0.7, -1.3)));
    assert_eq!(particles[0].velocity.0, Vec2::zero());
    assert_eq!(average_ek, Fixed::zero());
}

#[test]
fn a_particle_gets_a_previous_position_only_when_it_moves() {
    let p = params(Kernel::Spiky2);
    let mut particles = vec![at(0.0, 0.0), moving(1.0, 0.0, 0.5, 0.0)];
    update_positions(&mut particles, fx(0.5), &p);
    assert_eq!(particles[0].prev_position.0, None);
    assert_eq!(particles[0].position.0, v2(0.0, 0.0));
    assert_eq!(particles[1].prev_position.0, Some(v2(1.0, 0.0)));
    // once set, the previous position stays set, also on a step without a move
    particles[1].prev_position = PrevParticlePosition(Some(particles[1].position.0));
    update_positions(&mut particles, fx(0.5), &p);
    assert_eq!(particles[1].prev_position.0, Some(v2(1.25, 0.0)));
    assert_eq!(particles[1].position.0, v2(1.25, 0.0));
    assert_eq!(particles[1].velocity.0, Vec2::zero());
}

#[test]
fn spawned_particles_rest_in_the_inner_half_of_the_box() {
    let p = params(Kernel::Spiky2);
    assert_eq!(spawn_extent(&p), (fx(3.0), fx(1.75)));
    let particles = spawn(200, &p);
    assert_eq!(particles.len(), 200);
    for particle in &particles {
        assert!(particle.position.0.x.raw().abs() <= fx(3.0).raw());
        assert!(particle.position.0.y.raw().abs() <= fx(1.75).raw());
        assert_eq!(particle.prev_position.0, None);
        assert_eq!(particle.velocity.0, Vec2::zero());
        assert_eq!(particle.acceleration.0, Vec2::zero());
        assert_eq!(particle.density.0, Fixed::zero());
        assert_eq!(particle.pressure.0, Fixed::zero());
    }
    assert!(particles.iter().any(|q| q.position.0 != particles[0].position.0));
    assert_eq!(spawn(0, &p).len(), 0);
}

#[test]
fn respawned_particles_rest_somewhere_in_the_box() {
    let p = params(Kernel::Spiky2);
    let mut particles = vec![moving(0.0, 0.0, 1.0, 0.0), moving(1.0, 1.0, 0.0, -2.0)];
    update_densities_and_pressures(&mut particles, &StartupDamping(fx(1.0)), &p);
    update_positions(&mut particles, fx(0.5), &p);
    respawn(&mut particles, &p);
    assert_eq!(particles.len(), 2);
    for particle in &particles {
        assert!(particle.position.0.x.raw().abs() <= fx(6.0).raw());
        assert!(particle.position.0.y.raw().abs() <= fx(3.5).raw());
        assert_eq!(particle.prev_position.0, None);
        assert_eq!(particle.velocity.0, Vec2::zero());
        assert_eq!(particle.acceleration.0, Vec2::zero());
        assert_eq!(particle.density.0, Fixed::zero());
        assert_eq!(particle.pressure.0, Fixed::zero());
    }
}
