//! The control loop of an altitude/azimuth mount.
//!
//! The loop runs in ticks. A tick without a sensed orientation is skipped.
//! The first tick that has one adopts it as the position of both axes,
//! without moving anything; no later tick does so again. Every tick that has
//! one then moves both axes to the commanded target, if there is a target. A
//! new target replaces the old one: targets are not queued.
//!
//! The driver keeps the state of the loop. The axes are handed to each
//! operation, and the moves come back as commands for the caller to play on
//! the lines of each axis.
use crate::alignment::EulerAngle;
use crate::fixed::Fixed;
use crate::stepper_axis::{AxisView, StepperAxis};
use crate::stepper_motor::PinCommand;
use crate::telescope_position::{AltAZPostion, TelescopePosition};
use vstd::prelude::*;

verus! {

/// What a tick asks of one axis.
#[derive(Debug, PartialEq, Eq)]
pub enum AxisMove {
    /// Nothing is asked of the axis: there is no target, or the tick was
    /// skipped.
    Idle,
    /// The target is further away than one move can go: the axis stays where
    /// it is.
    OutOfReach,
    /// The axis goes to the target, by playing these commands.
    Run(Vec<PinCommand>),
}

/// An [`AxisMove`] with its commands as a sequence.
pub enum AxisPlan {
    Idle,
    OutOfReach,
    Run(Seq<PinCommand>),
}

impl View for AxisMove {
    type V = AxisPlan;

    open spec fn view(&self) -> AxisPlan {
        match self {
            AxisMove::Idle => AxisPlan::Idle,
            AxisMove::OutOfReach => AxisPlan::OutOfReach,
            AxisMove::Run(commands) => AxisPlan::Run(commands@),
        }
    }
}

/// What an [`AltAzDriver`] is.
pub struct DriverView {
    /// The target that was commanded last.
    pub target_position: Option<TelescopePosition>,
    /// Whether the axes have adopted a sensed orientation.
    pub position_set: bool,
}

/// The driver together with its two axes.
pub struct MountView {
    pub driver: DriverView,
    pub alt: AxisView,
    pub az: AxisView,
}

impl AxisView {
    /// The axis after a tick with this target: at the target where there is
    /// one within reach, unchanged where not.
    pub open spec fn followed(self, target: Option<Fixed>) -> AxisView {
        match target {
            Some(value) => if self.can_step_to(value) {
                self.at(value)
            } else {
                self
            },
            None => self,
        }
    }

    /// What a tick with this target asks of the axis.
    pub open spec fn plan(self, target: Option<Fixed>) -> AxisPlan {
        match target {
            Some(value) => if self.can_step_to(value) {
                AxisPlan::Run(self.move_to(value))
            } else {
                AxisPlan::OutOfReach
            },
            None => AxisPlan::Idle,
        }
    }
}

impl MountView {
    /// The horizontal direction that stands for a sensed orientation: the
    /// pitch is the altitude, the yaw the azimuth.
    pub open spec fn sensed(orientation: EulerAngle) -> AltAZPostion {
        AltAZPostion { alt: orientation.pitch, az: orientation.yaw }
    }

    /// The mount with `target` as its target.
    pub open spec fn set_target(self, target: Option<TelescopePosition>) -> MountView {
        MountView {
            driver: DriverView { target_position: target, ..self.driver },
            ..self
        }
    }

    /// The mount with both axes set to `position`. Nothing moves.
    pub open spec fn at(self, position: AltAZPostion) -> MountView {
        MountView { alt: self.alt.at(position.alt), az: self.az.at(position.az), ..self }
    }

    /// The first part of a tick: a mount that has adopted no orientation yet
    /// adopts the one that was sensed.
    pub open spec fn homed(self, orientation: EulerAngle) -> MountView {
        if self.driver.position_set {
            self
        } else {
            MountView {
                driver: DriverView { position_set: true, ..self.driver },
                ..self.at(Self::sensed(orientation))
            }
        }
    }

    /// The altitude that the target asks for, if there is a target.
    pub open spec fn target_alt(self) -> Option<Fixed> {
        match self.driver.target_position {
            Some(target) => Some(target.spec_alt_az().alt),
            None => None,
        }
    }

    /// The azimuth that the target asks for, if there is a target.
    pub open spec fn target_az(self) -> Option<Fixed> {
        match self.driver.target_position {
            Some(target) => Some(target.spec_alt_az().az),
            None => None,
        }
    }

    /// The second part of a tick: both axes go to the target.
    pub open spec fn followed(self) -> MountView {
        MountView {
            alt: self.alt.followed(self.target_alt()),
            az: self.az.followed(self.target_az()),
            ..self
        }
    }

    /// What the second part of a tick asks of the altitude axis and of the
    /// azimuth axis.
    pub open spec fn plan(self) -> (AxisPlan, AxisPlan) {
        (self.alt.plan(self.target_alt()), self.az.plan(self.target_az()))
    }

    /// The mount after one tick. A tick without a sensed orientation is
    /// skipped: it changes nothing.
    pub open spec fn tick(self, orientation: Option<EulerAngle>) -> MountView {
        match orientation {
            Some(sensed) => self.homed(sensed).followed(),
            None => self,
        }
    }

    /// What one tick asks of the two axes.
    pub open spec fn tick_plan(self, orientation: Option<EulerAngle>) -> (AxisPlan, AxisPlan) {
        match orientation {
            Some(sensed) => self.homed(sensed).plan(),
            None => (AxisPlan::Idle, AxisPlan::Idle),
        }
    }

    /// Where the mount points, read from its axes.
    pub open spec fn current_position(self) -> TelescopePosition {
        TelescopePosition::AltAz(AltAZPostion { alt: self.alt.position(), az: self.az.position() })
    }
}

#[derive(Debug)]
pub struct AltAzDriver {
    target_position: Option<TelescopePosition>,
    position_set: bool,
}

impl View for AltAzDriver {
    type V = DriverView;

    closed spec fn view(&self) -> DriverView {
        DriverView { target_position: self.target_position, position_set: self.position_set }
    }
}

impl AltAzDriver {
    /// The driver together with its two axes.
    pub open spec fn mount(&self, alt: AxisView, az: AxisView) -> MountView {
        MountView { driver: self@, alt, az }
    }

    /// A driver without a target that has adopted no orientation yet.
    pub fn new_raw() -> (driver: Self)
        ensures
            driver@ == (DriverView { target_position: None, position_set: false }),
    {
        AltAzDriver { target_position: None, position_set: false }
    }

    /// The target that was commanded last.
    pub fn get_target_position(&self) -> (target: Option<TelescopePosition>)
        ensures
            target == self@.target_position,
    {
        self.target_position
    }

    /// Commands a target, in place of the one before. It is acted on from
    /// the next tick on.
    pub fn set_target_position(&mut self, target: Option<TelescopePosition>)
        ensures
            final(self)@ == (DriverView { target_position: target, ..old(self)@ }),
    {
        self.target_position = target;
    }

    /// Whether the axes have adopted a sensed orientation.
    pub fn get_position_set(&self) -> (set: bool)
        ensures
            set == self@.position_set,
    {
        self.position_set
    }

    /// Where the mount points, read from its axes.
    pub fn get_current_position(&self, alt_axis: &StepperAxis, az_axis: &StepperAxis) -> (position:
        TelescopePosition)
        requires
            alt_axis.wf(),
            az_axis.wf(),
        ensures
            position == self.mount(alt_axis@, az_axis@).current_position(),
    {
        let alt = alt_axis.position();
        let az = az_axis.position();
        TelescopePosition::new_alt_az(alt, az)
    }

    /// Moves both axes to the target, if there is one.
    pub fn go_to_target_position(
        &self,
        alt_axis: &mut StepperAxis,
        az_axis: &mut StepperAxis,
    ) -> (moves: (AxisMove, AxisMove))
        ensures
            self.mount(final(alt_axis)@, final(az_axis)@) == self.mount(
                old(alt_axis)@,
                old(az_axis)@,
            ).followed(),
            (moves.0@, moves.1@) == self.mount(old(alt_axis)@, old(az_axis)@).plan(),
    {
        match self.target_position {
            Some(target) => {
                let alt_az_target = target.get_alt_az();
                let alt = Self::go_to(alt_axis, alt_az_target.alt);
                let az = Self::go_to(az_axis, alt_az_target.az);
                (alt, az)
            },
            None => (AxisMove::Idle, AxisMove::Idle),
        }
    }

    /// Moves one axis to `target` where one move can reach it.
    fn go_to(axis: &mut StepperAxis, target: Fixed) -> (axis_move: AxisMove)
        ensures
            final(axis)@ == old(axis)@.followed(Some(target)),
            axis_move@ == old(axis)@.plan(Some(target)),
    {
        if axis.can_step_to(target) {
            AxisMove::Run(axis.step_to_position(target))
        } else {
            AxisMove::OutOfReach
        }
    }

    /// Sets both axes to `position`. Nothing moves.
    pub fn set_current_position(
        &self,
        position: TelescopePosition,
        alt_axis: &mut StepperAxis,
        az_axis: &mut StepperAxis,
    )
        ensures
            self.mount(final(alt_axis)@, final(az_axis)@) == self.mount(
                old(alt_axis)@,
                old(az_axis)@,
            ).at(position.spec_alt_az()),
    {
        let position = position.get_alt_az();
        alt_axis.set_position(position.alt);
        az_axis.set_position(position.az);
    }

    /// One tick of the loop. With a sensed orientation, a driver that has
    /// adopted none yet adopts it, and then both axes go to the target, if
    /// there is one. Without a sensed orientation the tick is skipped.
    pub fn tick(
        &mut self,
        orientation: Option<EulerAngle>,
        alt_axis: &mut StepperAxis,
        az_axis: &mut StepperAxis,
    ) -> (moves: (AxisMove, AxisMove))
        ensures
            final(self).mount(final(alt_axis)@, final(az_axis)@) == old(self).mount(
                old(alt_axis)@,
                old(az_axis)@,
            ).tick(orientation),
            (moves.0@, moves.1@) == old(self).mount(old(alt_axis)@, old(az_axis)@).tick_plan(
                orientation,
            ),
    {
        match orientation {
            Some(orientation) => {
                if !self.position_set {
                    let sensed = TelescopePosition::new_alt_az(orientation.pitch, orientation.yaw);
                    self.set_current_position(sensed, alt_axis, az_axis);
                    self.position_set = true;
                }
                self.go_to_target_position(alt_axis, az_axis)
            },
            None => (AxisMove::Idle, AxisMove::Idle),
        }
    }
}

/// The sensed orientation is adopted exactly once. Of two ticks with an
/// orientation each, on a mount that has adopted none yet and has no target,
/// only the first sets the axes.
pub proof fn lemma_homes_once(mount: MountView, first: EulerAngle, second: EulerAngle)
    requires
        !mount.driver.position_set,
        mount.driver.target_position is None,
    ensures
        mount.tick(Some(first)).tick(Some(second)) == mount.tick(Some(first)),
        mount.tick(Some(first)).alt == mount.alt.at(first.pitch),
        mount.tick(Some(first)).az == mount.az.at(first.yaw),
        mount.tick(Some(first)).driver.position_set,
{
}

/// A mount that has adopted an orientation keeps it: after any tick it has
/// still adopted one, and which orientation is sensed makes no difference to
/// a tick.
pub proof fn lemma_homed_stays(mount: MountView, orientation: EulerAngle, other: EulerAngle)
    requires
        mount.driver.position_set,
    ensures
        mount.tick(None).driver.position_set,
        mount.tick(Some(orientation)).driver.position_set,
        mount.tick(Some(orientation)) == mount.tick(Some(other)),
        mount.tick_plan(Some(orientation)) == mount.tick_plan(Some(other)),
{
}

/// A tick without a sensed orientation changes nothing and asks nothing of
/// the axes, whatever the target.
pub proof fn lemma_skipped_tick(mount: MountView)
    ensures
        mount.tick(None) == mount,
        mount.tick_plan(None) == (AxisPlan::Idle, AxisPlan::Idle),
{
}

/// Targets are not queued: of two targets commanded before a tick, the tick
/// acts on the second alone.
pub proof fn lemma_last_target_wins(
    mount: MountView,
    first: Option<TelescopePosition>,
    second: Option<TelescopePosition>,
    orientation: Option<EulerAngle>,
)
    ensures
        mount.set_target(first).set_target(second) == mount.set_target(second),
        mount.set_target(first).set_target(second).tick(orientation) == mount.set_target(
            second,
        ).tick(orientation),
        mount.set_target(first).set_target(second).tick_plan(orientation) == mount.set_target(
            second,
        ).tick_plan(orientation),
{
}

/// A tick brings each axis to the target where one move can reach it, and a
/// second tick with the same target then has nothing left to play.
pub proof fn lemma_tick_reaches_target(
    mount: MountView,
    target: TelescopePosition,
    orientation: EulerAngle,
    next: EulerAngle,
)
    requires
        mount.driver.target_position == Some(target),
        mount.homed(orientation).alt.can_step_to(target.spec_alt_az().alt),
        mount.homed(orientation).az.can_step_to(target.spec_alt_az().az),
    ensures
        mount.tick(Some(orientation)).alt.stepper.position == mount.alt.to_steps(
            target.spec_alt_az().alt,
        ),
        mount.tick(Some(orientation)).az.stepper.position == mount.az.to_steps(
            target.spec_alt_az().az,
        ),
        mount.tick(Some(orientation)).tick_plan(Some(next)) == (
            AxisPlan::Run(Seq::empty()),
            AxisPlan::Run(Seq::empty()),
        ),
{
}

} // verus!
