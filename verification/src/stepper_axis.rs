//! One axis of the mount in physical units.
//!
//! A [`StepperAxis`] wraps a [`Stepper`] and scales by the number of steps
//! per unit: a value in units becomes steps by multiplying and rounding
//! toward zero, steps become units by dividing.
use crate::fixed::{
    abs, div_fixed, int_div_fixed, mul_fixed, mul_to_int, spec_div_fixed, spec_int_div_fixed,
    lemma_abs_mul, spec_mul_fixed, spec_mul_to_int, Fixed, SCALE2,
};
use crate::stepper_motor::{PinCommand, Stepper, StepperView};
use vstd::prelude::*;

verus! {

/// What a [`StepperAxis`] is: its motor and its scale.
pub struct AxisView {
    /// The motor of the axis.
    pub stepper: StepperView,
    /// Steps per unit.
    pub steps_per_unit: Fixed,
}

impl AxisView {
    /// An axis is well formed when its number of steps per unit is not zero.
    pub open spec fn wf(self) -> bool {
        self.steps_per_unit != 0
    }

    /// The same axis with its motor at another step position.
    pub open spec fn at_steps(self, steps: i32) -> AxisView {
        AxisView { stepper: self.stepper.at(steps), ..self }
    }

    /// The step count that stands for `value`: the product with the steps per
    /// unit, rounded toward zero and saturated to 32 bits.
    pub open spec fn to_steps(self, value: Fixed) -> i32 {
        spec_mul_to_int(value as int, self.steps_per_unit as int) as i32
    }

    /// The position in units: the step count divided by the steps per unit,
    /// rounded toward zero.
    pub open spec fn position(self) -> Fixed {
        spec_int_div_fixed(self.stepper.position as int, self.steps_per_unit as int) as Fixed
    }

    /// The same axis with its position overwritten by `value`.
    pub open spec fn at(self, value: Fixed) -> AxisView {
        self.at_steps(self.to_steps(value))
    }

    /// Whether one move reaches `target_position` from where the axis is.
    pub open spec fn can_step_to(self, target_position: Fixed) -> bool {
        self.stepper.can_step_to(self.to_steps(target_position))
    }

    /// The commands of a move to `target_position`.
    pub open spec fn move_to(self, target_position: Fixed) -> Seq<PinCommand> {
        self.stepper.move_to(self.to_steps(target_position))
    }
}

#[derive(Debug)]
pub struct StepperAxis {
    stepper: Stepper,
    steps_per_unit: Fixed,
}

impl View for StepperAxis {
    type V = AxisView;

    closed spec fn view(&self) -> AxisView {
        AxisView { stepper: self.stepper@, steps_per_unit: self.steps_per_unit }
    }
}

impl StepperAxis {
    /// An axis is well formed when its number of steps per unit is not zero.
    pub open spec fn wf(&self) -> bool {
        self@.wf()
    }

    /// An axis at position 0. The speed and the acceleration are given in
    /// units and stored divided by the steps per unit.
    pub fn new(
        has_enable: bool,
        steps_per_unit: Fixed,
        max_speed_units_per_sec: Fixed,
        acceleration: Fixed,
    ) -> (axis: Self)
        requires
            steps_per_unit != 0,
        ensures
            axis.wf(),
            axis@ == (AxisView {
                stepper: StepperView {
                    has_enable,
                    max_speed_hz: spec_div_fixed(
                        max_speed_units_per_sec as int,
                        steps_per_unit as int,
                    ) as Fixed,
                    acceleration: spec_div_fixed(acceleration as int, steps_per_unit as int) as Fixed,
                    position: 0,
                },
                steps_per_unit,
            }),
    {
        let stepper = Stepper::new(
            has_enable,
            div_fixed(max_speed_units_per_sec, steps_per_unit),
            div_fixed(acceleration, steps_per_unit),
        );
        Self { stepper, steps_per_unit }
    }

    /// Switches the motor driver on.
    pub fn enable(&self) -> (commands: Vec<PinCommand>)
        ensures
            commands@ == self@.stepper.enable(),
    {
        self.stepper.enable()
    }

    /// Switches the motor driver off.
    pub fn disable(&self) -> (commands: Vec<PinCommand>)
        ensures
            commands@ == self@.stepper.disable(),
    {
        self.stepper.disable()
    }

    /// Whether one move reaches `target_position` from where the axis is.
    pub fn can_step_to(&self, target_position: Fixed) -> (ok: bool)
        ensures
            ok == self@.can_step_to(target_position),
    {
        let target_steps: i32 = mul_to_int(target_position, self.steps_per_unit);
        self.stepper.can_step_to(target_steps)
    }

    /// Moves to `target_position`, given in units.
    pub fn step_to_position(&mut self, target_position: Fixed) -> (commands: Vec<PinCommand>)
        requires
            old(self)@.can_step_to(target_position),
        ensures
            final(self)@ == old(self)@.at(target_position),
            commands@ == old(self)@.move_to(target_position),
    {
        let target_steps: i32 = mul_to_int(target_position, self.steps_per_unit);
        self.stepper.step_to_position(target_steps)
    }

    /// The position in units: the step count divided by the steps per unit.
    pub fn position(&self) -> (pos: Fixed)
        requires
            self.wf(),
        ensures
            pos == self@.position(),
    {
        int_div_fixed(self.stepper.position(), self.steps_per_unit)
    }

    /// Overwrites the position with `pos`, given in units. Nothing moves.
    pub fn set_position(&mut self, pos: Fixed)
        ensures
            final(self)@ == old(self)@.at(pos),
    {
        let pos_steps: i32 = mul_to_int(pos, self.steps_per_unit);
        self.stepper.set_position(pos_steps);
    }

    /// Sets the full speed, given in units per second.
    pub fn set_max_speed(&mut self, max_speed_units_per_sec: Fixed)
        requires
            old(self).wf(),
        ensures
            final(self)@ == (AxisView {
                stepper: StepperView {
                    max_speed_hz: spec_div_fixed(
                        max_speed_units_per_sec as int,
                        old(self)@.steps_per_unit as int,
                    ) as Fixed,
                    ..old(self)@.stepper
                },
                ..old(self)@
            }),
    {
        self.stepper.set_max_speed(div_fixed(max_speed_units_per_sec, self.steps_per_unit));
    }

    /// Stores the acceleration, given in units per second squared.
    pub fn set_acceleration(&mut self, acceleration_units_per_sec: Fixed)
        requires
            old(self).wf(),
        ensures
            final(self)@ == (AxisView {
                stepper: StepperView {
                    acceleration: spec_div_fixed(
                        acceleration_units_per_sec as int,
                        old(self)@.steps_per_unit as int,
                    ) as Fixed,
                    ..old(self)@.stepper
                },
                ..old(self)@
            }),
    {
        self.stepper.set_acceleration(div_fixed(acceleration_units_per_sec, self.steps_per_unit));
    }

    /// The full speed in units per second: the stored rate times the steps
    /// per unit.
    pub fn max_speed(&self) -> (v: Fixed)
        ensures
            v == spec_mul_fixed(self@.stepper.max_speed_hz as int, self@.steps_per_unit as int),
    {
        mul_fixed(self.stepper.get_max_speed(), self.steps_per_unit)
    }

    /// The acceleration in units per second squared: the stored value times
    /// the steps per unit.
    pub fn acceleration(&self) -> (v: Fixed)
        ensures
            v == spec_mul_fixed(self@.stepper.acceleration as int, self@.steps_per_unit as int),
    {
        mul_fixed(self.stepper.get_acceleration(), self.steps_per_unit)
    }
}

/// A position that was set reads back as the value set, rounded toward zero:
/// it has the sign of that value, is no larger in magnitude, and falls short
/// of it by less than one step's worth of units plus one count of
/// resolution. This holds of every value whose step count fits the 32-bit
/// counter.
pub proof fn lemma_set_position_reads_back(axis: AxisView, pos: Fixed)
    requires
        axis.wf(),
        abs(pos as int) * abs(axis.steps_per_unit as int) / (SCALE2 as int) <= i32::MAX,
    ensures
        abs(axis.at(pos).position() as int) <= abs(pos as int),
        pos >= 0 ==> axis.at(pos).position() >= 0,
        pos <= 0 ==> axis.at(pos).position() <= 0,
        (abs(pos as int) - abs(axis.at(pos).position() as int)) * abs(axis.steps_per_unit as int)
            < SCALE2 + abs(axis.steps_per_unit as int),
{
    let spu = axis.steps_per_unit as int;
    let v = abs(pos as int);
    let s = abs(spu);
    let t = SCALE2 as int;
    let m = (v * s) / t;
    lemma_abs_mul(pos as int, spu);
    let steps = spec_mul_to_int(pos as int, spu);
    assert(abs(steps) == m);
    assert(steps == axis.to_steps(pos));
    lemma_abs_mul(steps, t);
    assert(abs(steps * t) == m * t);
    let b = (m * t) / s;
    vstd::arithmetic::div_mod::lemma_fundamental_div_mod(v * s, t);
    vstd::arithmetic::div_mod::lemma_mod_pos_bound(v * s, t);
    assert(0 <= v * s) by (nonlinear_arith)
        requires
            0 <= v,
            0 <= s,
    ;
    assert(0 <= m * t) by (nonlinear_arith)
        requires
            0 <= m,
            0 <= t,
    ;
    let r1 = (v * s) % t;
    assert(v * s == t * m + r1);
    assert(t * m == m * t) by (nonlinear_arith);
    vstd::arithmetic::div_mod::lemma_fundamental_div_mod(m * t, s);
    vstd::arithmetic::div_mod::lemma_mod_pos_bound(m * t, s);
    let r2 = (m * t) % s;
    assert(m * t == s * b + r2);
    assert(m * t <= s * v) by (nonlinear_arith)
        requires
            v * s == m * t + r1,
            0 <= r1,
    ;
    vstd::arithmetic::div_mod::lemma_div_is_ordered(m * t, s * v, s);
    vstd::arithmetic::div_mod::lemma_div_multiples_vanish(v, s);
    assert(b <= v);
    assert(0 <= b) by {
        vstd::arithmetic::div_mod::lemma_div_is_ordered(0, m * t, s);
    }
    let back = spec_int_div_fixed(steps, spu);
    assert(back == axis.at(pos).position());
    assert(abs(back) == b && (pos >= 0 ==> back >= 0) && (pos <= 0 ==> back <= 0));
    assert((v - b) * s == r1 + r2) by (nonlinear_arith)
        requires
            v * s == m * t + r1,
            m * t == s * b + r2,
    ;
}

} // verus!
