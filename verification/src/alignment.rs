//! The sensed orientation of the telescope tube.
use crate::fixed::Fixed;
use vstd::prelude::*;

verus! {

/// An orientation as three angles in degrees.
#[derive(Clone, Copy, Debug, PartialEq, Eq, Structural)]
pub struct EulerAngle {
    pub yaw: Fixed,
    pub pitch: Fixed,
    pub roll: Fixed,
}

impl Default for EulerAngle {
    fn default() -> (e: Self)
        ensures
            e == (EulerAngle { yaw: 0, pitch: 0, roll: 0 }),
    {
        EulerAngle { yaw: 0, pitch: 0, roll: 0 }
    }
}

} // verus!
