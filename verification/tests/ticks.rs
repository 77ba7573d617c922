use fluid_box::fixed::Fixed;
use fluid_box::kernel::Kernel;
use fluid_box::params::SimulationParameters;
use fluid_box::particle::{
    predict_positions, update_accelerations, update_densities_and_pressures, update_positions,
    Particle, ParticleVelocity,
};
use fluid_box::physics::{update_startup_damping, StartupDamping};
use fluid_box::simulation::tick;
use fluid_box::vec2::Vec2;

fn fx(x: f64) -> Fixed {
    Fixed::from_raw((x * 4294967296.0).round() as i64)
}

fn val(f: Fixed) -> f64 {
    f.raw() as f64 / 4294967296.0
}

fn v2(x: f64, y: f64) -> Vec2 {
    Vec2::new(fx(x), fx(y))
}

fn params() -> SimulationParameters {
    SimulationParameters {
        smoothing_radius: fx(1.0),
        target_density: fx(1.0),
        pressure_multiplier: fx(10.0),
        viscosity: fx(0.0),
        gravity: fx(0.0),
        restitution: fx(1.0),
        half_extent: v2(6.0, 3.5),
        particle_radius: fx(0.05),
        kernel: Kernel::Spiky2,
        edge_repulsion: false,
        startup_damping: false,
        startup_interval: fx(2.0),
    }
}

#[test]
fn two_particles_repel_after_one_tick() {
    for kernel in [Kernel::Smooth6, Kernel::Spiky2] {
        let p = SimulationParameters { kernel, ..params() };
        let mut particles = vec![Particle::new(v2(-0.1, 0.0)), Particle::new(v2(0.1, 0.0))];
        let mut damping = StartupDamping(Fixed::zero());
        tick(&mut particles, &mut damping, fx(1.0 / 60.0), fx(0.0), &p);
        let a0 = particles[0].acceleration.0;
        let a1 = particles[1].acceleration.0;
        // the mutual density is above the target
        assert!(particles[0].density.0.raw() > p.target_density.raw());
        assert!(a0.x.raw() < 0);
        assert!(a1.x.raw() > 0);
        assert_eq!(a0.x, a1.x.neg());
        assert_eq!(a0.y, Fixed::zero());
        assert_eq!(a1.y, Fixed::zero());
        // and the particles have moved apart by the same amount
        assert!(particles[0].position.0.x.raw() < fx(-0.1).raw());
        assert_eq!(particles[0].position.0.x, particles[1].position.0.x.neg());
        assert_eq!(particles[0].position.0.y, Fixed::zero());
        assert_eq!(particles[0].velocity.0, particles[1].velocity.0.neg());
    }
}

#[test]
fn a_particle_alone_at_the_centre_stays_there() {
    for kernel in [Kernel::Smooth6, Kernel::Spiky2] {
        let p = SimulationParameters { kernel, startup_damping: true, ..params() };
        let mut particles = vec![Particle::new(v2(0.0, 0.0))];
        let mut damping = StartupDamping(Fixed::zero());
        let dt = fx(1.0 / 60.0);
        let mut elapsed = Fixed::zero();
        for _ in 0..500 {
            let average_ek = tick(&mut particles, &mut damping, dt, elapsed, &p);
            assert_eq!(average_ek, Fixed::zero());
            elapsed = elapsed.add(dt);
        }
        assert_eq!(particles[0].position.0, Vec2::zero());
        assert_eq!(particles[0].velocity.0, Vec2::zero());
        assert_eq!(particles[0].acceleration.0, Vec2::zero());
        assert_eq!(particles[0].prev_position.0, None);
        assert_eq!(particles[0].density.0, kernel.self_density(fx(1.0)));
        assert_eq!(damping.0, Fixed::one());
    }
}

#[test]
fn a_particle_alone_anywhere_stays_there() {
    let p = params();
    let mut particles = vec![Particle::new(v2(2.3, -1.7))];
    let mut damping = StartupDamping(Fixed::zero());
    for _ in 0..100 {
        tick(&mut particles, &mut damping, fx(0.02), fx(5.0), &p);
    }
    assert_eq!(particles[0].position.0, v2(2.3, -1.7));
    assert_eq!(particles[0].velocity.0, Vec2::zero());
}

#[test]
fn a_tick_is_its_four_phases_in_order() {
    let p = SimulationParameters { startup_damping: true, viscosity: fx(0.25), ..params() };
    let start = vec![
        Particle::new(v2(-0.3, 0.1)),
        Particle::new(v2(0.2, -0.2)),
        Particle::new(v2(0.6, 0.5)),
    ];
    let mut start = start;
    start[0].velocity = ParticleVelocity(v2(0.5, 0.0));
    start[2].velocity = ParticleVelocity(v2(-0.25, -0.5));
    let dt = fx(1.0 / 50.0);
    let elapsed = fx(1.0);

    let mut ticked = start.clone();
    let mut damping = StartupDamping(Fixed::zero());
    let average_ek = tick(&mut ticked, &mut damping, dt, elapsed, &p);

    let mut phased = start.clone();
    let mut by_hand = StartupDamping(Fixed::zero());
    update_startup_damping(elapsed, &mut by_hand, &p);
    predict_positions(&mut phased, &p);
    update_densities_and_pressures(&mut phased, &by_hand, &p);
    update_accelerations(&mut phased, &by_hand, &p);
    let by_hand_ek = update_positions(&mut phased, dt, &p);

    assert_eq!(damping.0, fx(0.25));
    assert_eq!(by_hand.0, damping.0);
    assert_eq!(average_ek, by_hand_ek);
    for (a, b) in ticked.iter().zip(phased.iter()) {
        assert_eq!(a.position.0, b.position.0);
        assert_eq!(a.prev_position.0, b.prev_position.0);
        assert_eq!(a.predicted_position.0, b.predicted_position.0);
        assert_eq!(a.velocity.0, b.velocity.0);
        assert_eq!(a.acceleration.0, b.acceleration.0);
        assert_eq!(a.density.0, b.density.0);
        assert_eq!(a.pressure.0, b.pressure.0);
    }
    assert!(average_ek.raw() > 0);
}

#[test]
fn particles_under_gravity_stay_in_the_box() {
    let p = SimulationParameters {
        gravity: fx(9.0),
        restitution: fx(0.5),
        half_extent: v2(2.0, 2.0),
        ..params()
    };
    let bound = p.centre_bound();
    let mut particles = vec![
        Particle::new(v2(-1.0, 1.5)),
        Particle::new(v2(0.0, 0.5)),
        Particle::new(v2(1.2, -0.5)),
    ];
    let mut damping = StartupDamping(Fixed::zero());
    for _ in 0..600 {
        tick(&mut particles, &mut damping, fx(1.0 / 60.0), fx(3.0), &p);
        for particle in &particles {
            assert!(particle.position.0.x.raw().abs() <= bound.x.raw());
            assert!(particle.position.0.y.raw().abs() <= bound.y.raw());
            assert!(particle.density.0.raw() >= p.kernel.self_density(fx(1.0)).raw());
        }
    }
    // they have fallen
    assert!(particles.iter().all(|q| val(q.position.0.y) < 1.5));
}
