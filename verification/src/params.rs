//! The configuration of a run.

use crate::fixed::{Fixed, SCALE};
use crate::kernel::Kernel;
use crate::vec2::Vec2;
use vstd::prelude::*;

verus! {

/// Smallest smoothing radius (2^-16) whose square is not rounded to zero.
pub const RAW_RADIUS_MIN: i64 = 65536;

/// Largest half extent of the box (2^28): three times it is still in range.
pub const RAW_EXTENT_MAX: i64 = 1152921504606846976;

/// What a run is configured with. Nothing here changes while it runs.
#[derive(Clone, Copy, Debug)]
pub struct SimulationParameters {
    /// Distance beyond which a particle has no influence.
    pub smoothing_radius: Fixed,
    /// Density at which the pressure is zero.
    pub target_density: Fixed,
    /// Pressure per unit of density above the target.
    pub pressure_multiplier: Fixed,
    /// Strength of the pull of a particle's velocity toward its neighbours'.
    pub viscosity: Fixed,
    /// Downward acceleration.
    pub gravity: Fixed,
    /// Share of the speed that survives a bounce off a wall.
    pub restitution: Fixed,
    /// Half the width and half the height of the box.
    pub half_extent: Vec2,
    /// Radius of a particle: its centre stays this far from the walls.
    pub particle_radius: Fixed,
    /// Kernel that densities, pressures and viscosity are smoothed with.
    pub kernel: Kernel,
    /// Whether the walls repel.
    pub edge_repulsion: bool,
    /// Whether pressure is ramped up at the start.
    pub startup_damping: bool,
    /// Time over which pressure is ramped up.
    pub startup_interval: Fixed,
}

impl SimulationParameters {
    /// Whether the configuration is one that a run accepts.
    pub open spec fn well_formed(&self) -> bool {
        &&& self.smoothing_radius.raw >= RAW_RADIUS_MIN
        &&& self.target_density.raw >= 0
        &&& self.pressure_multiplier.raw >= 0
        &&& self.viscosity.raw >= 0
        &&& self.gravity.raw >= 0
        &&& 0 <= self.restitution.raw <= SCALE
        &&& 0 <= self.particle_radius.raw
        &&& self.particle_radius.raw < self.half_extent.x.raw <= RAW_EXTENT_MAX
        &&& self.particle_radius.raw < self.half_extent.y.raw <= RAW_EXTENT_MAX
        &&& self.startup_interval.raw > 0
    }

    /// How far the centre of a particle may be from the centre of the box,
    /// along each axis.
    pub open spec fn centre_bound_spec(&self) -> Vec2 {
        Vec2 {
            x: self.half_extent.x.sub(self.particle_radius),
            y: self.half_extent.y.sub(self.particle_radius),
        }
    }

    /// Decides whether the configuration is well formed.
    pub fn is_valid(&self) -> (r: bool)
        ensures
            r == self.well_formed(),
    {
        self.smoothing_radius.raw >= RAW_RADIUS_MIN && self.target_density.raw >= 0
            && self.pressure_multiplier.raw >= 0 && self.viscosity.raw >= 0 && self.gravity.raw
            >= 0 && 0 <= self.restitution.raw && self.restitution.raw <= SCALE && 0
            <= self.particle_radius.raw && self.particle_radius.raw < self.half_extent.x.raw
            && self.half_extent.x.raw <= RAW_EXTENT_MAX && self.particle_radius.raw
            < self.half_extent.y.raw && self.half_extent.y.raw <= RAW_EXTENT_MAX
            && self.startup_interval.raw > 0
    }

    /// How far the centre of a particle may be from the centre of the box,
    /// along each axis.
    #[verifier::when_used_as_spec(centre_bound_spec)]
    pub fn centre_bound(&self) -> (r: Vec2)
        ensures
            r == self.centre_bound_spec(),
            self.well_formed() ==> 0 < r.x.raw <= RAW_EXTENT_MAX && 0 < r.y.raw <= RAW_EXTENT_MAX,
    {
        Vec2 {
            x: self.half_extent.x.sub(self.particle_radius),
            y: self.half_extent.y.sub(self.particle_radius),
        }
    }
}

} // verus!
