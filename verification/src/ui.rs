//! What the read-out shows, and when it is due for a refresh.

use crate::fixed::Fixed;
use vstd::prelude::*;

verus! {

/// The time of the last refresh of the read-out.
#[derive(Clone, Copy, Debug)]
pub struct UILastUpdate(pub Fixed);

/// The average kinetic energy of the particles.
#[derive(Clone, Copy, Debug)]
pub struct AverageEK(pub Fixed);

/// Time between two refreshes of the read-out (1/5).
pub open spec fn update_interval_spec() -> Fixed {
    Fixed::ratio_spec(1, 5)
}

/// Whether a refresh is due at the time `elapsed`.
pub open spec fn update_due(elapsed: Fixed, last_update: UILastUpdate) -> bool {
    elapsed.sub(last_update.0).raw > update_interval_spec().raw
}

/// Decides whether the read-out is due for a refresh at the time `elapsed`,
/// and, where it is, moves the time of the last refresh on by one interval.
pub fn update(elapsed: Fixed, last_update: &mut UILastUpdate) -> (due: bool)
    ensures
        due == update_due(elapsed, *old(last_update)),
        due ==> final(last_update).0 == old(last_update).0.add(update_interval_spec()),
        !due ==> final(last_update).0 == old(last_update).0,
{
    let interval = Fixed::from_ratio(1, 5);
    if elapsed.sub(last_update.0).raw > interval.raw {
        last_update.0 = last_update.0.add(interval);
        true
    } else {
        false
    }
}

/// The frame rate for a frame that took `dt`.
pub fn frame_rate(dt: Fixed) -> (r: Fixed)
    ensures
        r == Fixed::one().div(dt),
{
    Fixed::one().div(dt)
}

} // verus!
