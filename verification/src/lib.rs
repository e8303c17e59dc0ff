//! Motion core of a two-axis telescope mount.
//!
//! The crate holds the rules by which the mount moves: the ramped pulse train
//! of a stepper motor, the scaling between physical units and motor steps, the
//! two coordinate frames, the control loop that homes the axes once and then
//! follows the commanded target, and the cell that hands a value to one
//! operation at a time. Nothing here touches hardware: every operation that
//! drives a line returns the commands to play, and a caller that owns the
//! lines plays them.
//!
//! Real quantities (angles, rates, steps per unit) are fixed-point numbers,
//! see [`fixed`].
use vstd::prelude::*;

pub mod alignment;
pub mod alt_az_driver;
pub mod fixed;
pub mod gnss;
pub mod helpers;
pub mod mutex_box;
pub mod stepper_axis;
pub mod stepper_motor;
pub mod telescope_position;

verus! {

/// UDP port on which the mount announces itself.
pub const BROADCAST_PORT: u16 = 12961;

/// Number that marks an announcement as coming from a mount.
pub const MAGIC_NUMBER: u32 = 146658626;

/// The announcement that a mount sends on [`BROADCAST_PORT`].
#[derive(Clone, Copy, Debug, PartialEq, Eq, Structural)]
pub struct Broadcast {
    pub magic_number: u32,
}

} // verus!
