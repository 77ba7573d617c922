//! A fluid in a box, as particles: a two-dimensional solver by smoothed
//! particle hydrodynamics.
//!
//! Every number of the solver is a fixed-point number (`fixed`), every
//! position and velocity a vector of two of them (`vec2`). A tick
//! (`simulation`) runs four phases over all particles (`particle`): it
//! predicts positions, evaluates densities and pressures with a smoothing
//! kernel (`kernel`), accumulates accelerations from pressure, viscosity,
//! the walls and gravity, and integrates with reflection at the walls
//! (`physics`). Pressure is ramped up while a run starts (`maths`,
//! `physics`). The one thing left to chance (`random`) is the direction in
//! which coinciding particles part. `color`, `background` and `ui` turn
//! what the solver computes into what a front end shows.

pub mod background;
pub mod color;
pub mod fixed;
pub mod kernel;
pub mod maths;
pub mod params;
pub mod particle;
pub mod physics;
pub mod random;
pub mod simulation;
pub mod ui;
pub mod vec2;
