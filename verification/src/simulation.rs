//! One tick of the solver: the four phases in their order.

use crate::fixed::Fixed;
use crate::params::SimulationParameters;
use crate::particle::{
    acceleration_spec, average_kinetic_energy_spec, evaluated_spec, fallbacks_admissible,
    is_acceleration, lemma_lone_acceleration, lemma_rest_particle, predict_positions,
    update_accelerations, update_densities_and_pressures, update_positions, Particle,
};
use crate::vec2::Vec2;
use crate::physics::{damping_at, update_startup_damping, StartupDamping};
use vstd::prelude::*;

verus! {

/// The particles after prediction.
pub open spec fn predicted_state(
    particles: Seq<Particle>,
    params: &SimulationParameters,
) -> Seq<Particle> {
    Seq::new(particles.len(), |i: int| particles[i].predicted_spec(params))
}

/// The particles after their densities and pressures were brought up to
/// date.
pub open spec fn evaluated_state(
    particles: Seq<Particle>,
    damping: Fixed,
    params: &SimulationParameters,
) -> Seq<Particle> {
    Seq::new(particles.len(), |i: int| evaluated_spec(particles, i, damping, params))
}

/// Whether `after` is `before` with the acceleration of every particle
/// brought up to date.
pub open spec fn accelerated(
    before: Seq<Particle>,
    after: Seq<Particle>,
    damping: Fixed,
    params: &SimulationParameters,
) -> bool {
    &&& after.len() == before.len()
    &&& forall|i: int|
        0 <= i < before.len() ==> {
            let p = #[trigger] after[i];
            &&& is_acceleration(before, i, damping, params, p.acceleration.0)
            &&& p == Particle { acceleration: p.acceleration, ..before[i] }
        }
}

/// The particles after integration over a step of length `dt`.
pub open spec fn integrated_state(
    particles: Seq<Particle>,
    dt: Fixed,
    params: &SimulationParameters,
) -> Seq<Particle> {
    Seq::new(particles.len(), |i: int| particles[i].integrated_spec(dt, params))
}

/// Whether `after` is what one tick makes of `before`: `forces` is the state
/// between the evaluation of the forces and the integration.
pub open spec fn ticked(
    before: Seq<Particle>,
    forces: Seq<Particle>,
    after: Seq<Particle>,
    damping: Fixed,
    dt: Fixed,
    params: &SimulationParameters,
) -> bool {
    &&& accelerated(
        evaluated_state(predicted_state(before, params), damping, params),
        forces,
        damping,
        params,
    )
    &&& after == integrated_state(forces, dt, params)
}

/// Advances the run by one tick: sets the damping for the time `elapsed`
/// since the start, predicts positions, evaluates densities and pressures,
/// then accelerations, and integrates over `dt`. Each phase is finished for
/// all particles before the next starts. Returns the average kinetic energy.
pub fn tick(
    particles: &mut Vec<Particle>,
    damping: &mut StartupDamping,
    dt: Fixed,
    elapsed: Fixed,
    params: &SimulationParameters,
) -> (average_ek: Fixed)
    requires
        old(particles)@.len() + 2 <= usize::MAX,
    ensures
        final(damping).0 == damping_at(elapsed, params),
        exists|forces: Seq<Particle>| #[trigger]
            ticked(old(particles)@, forces, final(particles)@, final(damping).0, dt, params),
        average_ek == average_kinetic_energy_spec(final(particles)@),
        final(particles)@.len() == old(particles)@.len(),
        params.well_formed() ==> forall|i: int|
            0 <= i < old(particles)@.len() ==> (#[trigger] final(particles)@[i]).density.0.raw
                >= params.kernel.self_density(params.smoothing_radius).raw > 0,
        forall|i: int|
            0 <= i < old(particles)@.len() && (#[trigger] old(
                particles,
            )@[i]).prev_position.0.is_some() ==> final(particles)@[i].prev_position.0.is_some(),
{
    update_startup_damping(elapsed, damping, params);
    predict_positions(particles, params);
    assert(particles@ =~= predicted_state(old(particles)@, params));
    update_densities_and_pressures(particles, damping, params);
    assert(particles@ =~= evaluated_state(
        predicted_state(old(particles)@, params),
        damping.0,
        params,
    ));
    let ghost evaluated = particles@;
    update_accelerations(particles, damping, params);
    let ghost forces = particles@;
    let average_ek = update_positions(particles, dt, params);
    assert(particles@ =~= integrated_state(forces, dt, params));
    assert(ticked(old(particles)@, forces, particles@, damping.0, dt, params));
    assert forall|i: int| 0 <= i < particles@.len() implies (#[trigger] particles@[i]).density
        == evaluated[i].density && (old(particles)@[i].prev_position.0.is_some()
        ==> particles@[i].prev_position.0.is_some()) by {
        assert(forces[i].density == evaluated[i].density);
        assert(forces[i].prev_position == old(particles)@[i].prev_position);
        assert(particles@[i] == forces[i].integrated_spec(dt, params));
    }
    average_ek
}

/// A particle alone and at rest stays where it is: in a box whose walls do
/// not repel, with no gravity, a tick of any length changes neither its
/// position nor its velocity, nor whether it has made a step.
pub proof fn lemma_lone_particle_rests(
    before: Seq<Particle>,
    forces: Seq<Particle>,
    after: Seq<Particle>,
    damping: Fixed,
    dt: Fixed,
    params: &SimulationParameters,
)
    requires
        ticked(before, forces, after, damping, dt, params),
        before.len() == 1,
        before[0].velocity.0 == Vec2::zero_spec(),
        before[0].prev_position.0 == Some(before[0].position.0)
            || before[0].prev_position.0.is_none(),
        params.gravity.raw == 0,
        !params.edge_repulsion,
    ensures
        after.len() == 1,
        after[0].position == before[0].position,
        after[0].velocity == before[0].velocity,
        after[0].prev_position == before[0].prev_position,
{
    let predicted = predicted_state(before, params);
    let evaluated = evaluated_state(predicted, damping, params);
    assert(evaluated.len() == 1);
    let p = forces[0];
    assert(is_acceleration(evaluated, 0, damping, params, p.acceleration.0));
    let fallbacks = choose|fallbacks: Seq<Vec2>|
        fallbacks_admissible(evaluated, 0, fallbacks, params) && p.acceleration.0
            == #[trigger] acceleration_spec(evaluated, 0, fallbacks, damping, params);
    lemma_lone_acceleration(evaluated, fallbacks, damping, params);
    assert(p.velocity == before[0].velocity);
    assert(p.position == before[0].position);
    assert(p.prev_position == before[0].prev_position);
    lemma_rest_particle(p, dt, params);
    assert(after[0] == p.integrated_spec(dt, params));
}

} // verus!
