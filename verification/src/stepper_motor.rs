//! Ramped step-pulse generator with an integer step position.
//!
//! A [`Stepper`] owns no hardware. Each operation that would drive a line
//! returns the [`PinCommand`]s to play, in order, on the step, direction and
//! enable lines of one motor driver.
use crate::fixed::{abs, clamp, Fixed, SCALE2};
use vstd::prelude::*;

verus! {

/// One of the digital output lines of a motor driver.
#[derive(Clone, Copy, Debug, PartialEq, Eq, Structural)]
pub enum Line {
    Step,
    Dir,
    Enable,
}

/// One thing to do on the lines of a motor driver.
#[derive(Clone, Copy, Debug, PartialEq, Eq, Structural)]
pub enum PinCommand {
    /// Drive the line high.
    SetHigh(Line),
    /// Drive the line low.
    SetLow(Line),
    /// Wait for this many microseconds.
    DelayUs(u32),
}

/// Microseconds per pulse at the full step rate: one second divided by the
/// rate, rounded down. A rate of zero gives the longest delay there is, a
/// negative rate gives none.
pub open spec fn spec_min_delay_us(max_speed_hz: int) -> int {
    if max_speed_hz == 0 {
        u32::MAX as int
    } else if max_speed_hz < 0 {
        0
    } else {
        clamp(SCALE2 as int / max_speed_hz, 0, u32::MAX as int)
    }
}

/// Distance of pulse `i` from the nearer end of a move of `n` pulses. The
/// ramp of the move is twice this distance divided by `n`: it rises from 0 at
/// the first pulse to 1 at the middle and falls again.
pub open spec fn spec_ramp_distance(i: int, n: int) -> int {
    if 2 * i < n {
        i
    } else {
        n - i
    }
}

/// Width in microseconds of a pulse at distance `k` from the nearer end of a
/// move of `n` pulses: the delay at full rate divided by the ramp, where a
/// ramp under one tenth counts as one tenth.
pub open spec fn spec_delay_at_distance(min_delay_us: int, k: int, n: int) -> int {
    if 20 * k < n {
        clamp(10 * min_delay_us, 0, u32::MAX as int)
    } else {
        clamp((min_delay_us * n) / (2 * k), 0, u32::MAX as int)
    }
}

/// Width in microseconds of pulse `i` of `n`.
pub open spec fn spec_pulse_delay_us(min_delay_us: int, i: int, n: int) -> int {
    spec_delay_at_distance(min_delay_us, spec_ramp_distance(i, n), n)
}

/// One pulse: the step line high for half the width, then low for half.
pub open spec fn spec_pulse(width_us: int) -> Seq<PinCommand> {
    seq![
        PinCommand::SetHigh(Line::Step),
        PinCommand::DelayUs((width_us / 2) as u32),
        PinCommand::SetLow(Line::Step),
        PinCommand::DelayUs((width_us / 2) as u32),
    ]
}

/// The first `count` pulses of a move of `n` pulses.
pub open spec fn spec_pulse_train(min_delay_us: int, n: int, count: int) -> Seq<PinCommand>
    decreases count,
{
    if count <= 0 {
        Seq::empty()
    } else {
        spec_pulse_train(min_delay_us, n, count - 1) + spec_pulse(
            spec_pulse_delay_us(min_delay_us, count - 1, n),
        )
    }
}

/// What a move by `steps` plays: the direction line set by the sign of
/// `steps` and then driven low, and after that one pulse for each step.
pub open spec fn spec_step_commands(min_delay_us: int, steps: int) -> Seq<PinCommand> {
    seq![
        if steps > 0 {
            PinCommand::SetLow(Line::Dir)
        } else {
            PinCommand::SetHigh(Line::Dir)
        },
        PinCommand::SetLow(Line::Dir),
    ] + spec_pulse_train(min_delay_us, abs(steps), abs(steps))
}

/// Number of times that `commands` raise the step line.
pub open spec fn spec_pulse_count(commands: Seq<PinCommand>) -> nat
    decreases commands.len(),
{
    if commands.len() == 0 {
        0
    } else {
        let rest = spec_pulse_count(commands.drop_last());
        if commands.last() == PinCommand::SetHigh(Line::Step) {
            rest + 1
        } else {
            rest
        }
    }
}

/// Microseconds per pulse at the full step rate.
pub fn min_delay_us(max_speed_hz: Fixed) -> (d: u32)
    ensures
        d == spec_min_delay_us(max_speed_hz as int),
{
    if max_speed_hz == 0 {
        u32::MAX
    } else if max_speed_hz < 0 {
        0
    } else {
        let q: i64 = SCALE2 / max_speed_hz;
        if q > 0xffff_ffff {
            u32::MAX
        } else {
            q as u32
        }
    }
}

/// Width in microseconds of pulse `i` of a move of `steps` pulses.
///
/// The width is never under the delay at full rate and never over ten times
/// that delay.
pub fn pulse_delay_us(min_delay_us: u32, i: u32, steps: u32) -> (d: u32)
    requires
        i < steps,
    ensures
        d == spec_pulse_delay_us(min_delay_us as int, i as int, steps as int),
        min_delay_us <= d,
        d <= 10 * min_delay_us,
{
    let n: u64 = steps as u64;
    let m: u64 = min_delay_us as u64;
    let k: u64 = if 2 * (i as u64) < n {
        i as u64
    } else {
        n - i as u64
    };
    let wide: u64 = if 20 * k < n {
        10 * m
    } else {
        assert(m * n <= 0xffff_ffff * 0xffff_ffff) by (nonlinear_arith)
            requires
                m <= 0xffff_ffff,
                n <= 0xffff_ffff,
        ;
        let q: u64 = (m * n) / (2 * k);
        proof {
            let kk = k as int;
            let mm = m as int;
            let nn = n as int;
            assert(mm * (2 * kk) <= mm * nn && mm * nn <= (10 * mm) * (2 * kk))
                by (nonlinear_arith)
                requires
                    0 <= mm,
                    2 * kk <= nn,
                    nn <= 20 * kk,
            ;
            vstd::arithmetic::div_mod::lemma_div_is_ordered(mm * (2 * kk), mm * nn, 2 * kk);
            vstd::arithmetic::div_mod::lemma_div_is_ordered(mm * nn, (10 * mm) * (2 * kk), 2 * kk);
            vstd::arithmetic::div_mod::lemma_div_multiples_vanish(mm, 2 * kk);
            vstd::arithmetic::div_mod::lemma_div_multiples_vanish(10 * mm, 2 * kk);
        }
        q
    };
    if wide > 0xffff_ffff {
        u32::MAX
    } else {
        wide as u32
    }
}

/// The ramp is the same from both ends of a move: pulse `i` is as wide as the
/// pulse `i` places before the end.
pub proof fn lemma_ramp_is_symmetric(min_delay_us: int, i: int, n: int)
    requires
        0 < i < n,
    ensures
        spec_pulse_delay_us(min_delay_us, i, n) == spec_pulse_delay_us(min_delay_us, n - i, n),
{
}

/// Pulses are slow at the ends of a move and fastest in its middle: of two
/// pulses, the one further from the nearer end is no wider.
pub proof fn lemma_ramp_narrows_toward_the_middle(min_delay_us: int, i: int, j: int, n: int)
    requires
        0 <= min_delay_us,
        0 <= i < n,
        0 <= j < n,
        spec_ramp_distance(i, n) <= spec_ramp_distance(j, n),
    ensures
        spec_pulse_delay_us(min_delay_us, i, n) >= spec_pulse_delay_us(min_delay_us, j, n),
{
    let a = spec_ramp_distance(i, n);
    let b = spec_ramp_distance(j, n);
    if 20 * b >= n {
        assert(0 <= min_delay_us * n) by (nonlinear_arith)
            requires
                0 <= min_delay_us,
                0 <= n,
        ;
        if 20 * a < n {
            assert(min_delay_us * n <= (10 * min_delay_us) * (2 * b)) by (nonlinear_arith)
                requires
                    0 <= min_delay_us,
                    n <= 20 * b,
            ;
            vstd::arithmetic::div_mod::lemma_div_is_ordered(
                min_delay_us * n,
                (10 * min_delay_us) * (2 * b),
                2 * b,
            );
            vstd::arithmetic::div_mod::lemma_div_multiples_vanish(10 * min_delay_us, 2 * b);
        } else {
            vstd::arithmetic::div_mod::lemma_div_is_ordered_by_denominator(
                min_delay_us * n,
                2 * a,
                2 * b,
            );
        }
    }
}

/// The train of `count` pulses holds four commands for each pulse.
pub proof fn lemma_pulse_train_len(min_delay_us: int, n: int, count: int)
    requires
        0 <= count,
    ensures
        spec_pulse_train(min_delay_us, n, count).len() == 4 * count,
    decreases count,
{
    if count > 0 {
        lemma_pulse_train_len(min_delay_us, n, count - 1);
    }
}

/// Commands played one after the other raise the step line as often as both
/// together.
pub proof fn lemma_pulse_count_concat(a: Seq<PinCommand>, b: Seq<PinCommand>)
    ensures
        spec_pulse_count(a + b) == spec_pulse_count(a) + spec_pulse_count(b),
    decreases b.len(),
{
    if b.len() == 0 {
        assert(a + b =~= a);
    } else {
        lemma_pulse_count_concat(a, b.drop_last());
        assert((a + b).drop_last() =~= a + b.drop_last());
        assert((a + b).last() == b.last());
    }
}

/// One pulse raises the step line once.
pub proof fn lemma_pulse_count_one(width_us: int)
    ensures
        spec_pulse_count(spec_pulse(width_us)) == 1,
{
    let p = spec_pulse(width_us);
    let p3 = p.drop_last();
    let p2 = p3.drop_last();
    let p1 = p2.drop_last();
    assert(p1.drop_last().len() == 0);
    assert(spec_pulse_count(p1.drop_last()) == 0);
    assert(p1.last() == PinCommand::SetHigh(Line::Step));
    assert(spec_pulse_count(p1) == 1);
    assert(p2.last() == PinCommand::DelayUs((width_us / 2) as u32));
    assert(spec_pulse_count(p2) == 1);
    assert(p3.last() == PinCommand::SetLow(Line::Step));
    assert(spec_pulse_count(p3) == 1);
    assert(p.last() == PinCommand::DelayUs((width_us / 2) as u32));
}

/// A train of `count` pulses raises the step line `count` times.
pub proof fn lemma_pulse_train_count(min_delay_us: int, n: int, count: int)
    requires
        0 <= count,
    ensures
        spec_pulse_count(spec_pulse_train(min_delay_us, n, count)) == count,
    decreases count,
{
    if count > 0 {
        lemma_pulse_train_count(min_delay_us, n, count - 1);
        let width = spec_pulse_delay_us(min_delay_us, count - 1, n);
        lemma_pulse_count_one(width);
        lemma_pulse_count_concat(
            spec_pulse_train(min_delay_us, n, count - 1),
            spec_pulse(width),
        );
    }
}

/// A move by `steps` raises the step line once for each step, whatever the
/// sign of `steps` and whatever the rate.
pub proof fn lemma_step_pulse_count(min_delay_us: int, steps: int)
    ensures
        spec_pulse_count(spec_step_commands(min_delay_us, steps)) == abs(steps),
        spec_step_commands(min_delay_us, steps).len() == 2 + 4 * abs(steps),
{
    let n = abs(steps);
    let head = spec_step_commands(min_delay_us, steps).subrange(0, 2);
    let train = spec_pulse_train(min_delay_us, n, n);
    lemma_pulse_train_len(min_delay_us, n, n);
    lemma_pulse_train_count(min_delay_us, n, n);
    assert(spec_step_commands(min_delay_us, steps) =~= head + train);
    lemma_pulse_count_concat(head, train);
    let h1 = head.drop_last();
    assert(h1.drop_last().len() == 0);
    assert(spec_pulse_count(h1.drop_last()) == 0);
    assert(h1.last() != PinCommand::SetHigh(Line::Step));
    assert(spec_pulse_count(h1) == 0);
    assert(head.last() == PinCommand::SetLow(Line::Dir));
    assert(spec_pulse_count(head) == 0);
}

/// What a [`Stepper`] is: its settings and its position.
pub struct StepperView {
    /// Whether the driver has an enable line.
    pub has_enable: bool,
    /// The full step rate in steps per second.
    pub max_speed_hz: Fixed,
    /// The stored acceleration. The ramp does not use it.
    pub acceleration: Fixed,
    /// The position in steps.
    pub position: i32,
}

impl StepperView {
    /// The same stepper at another position.
    pub open spec fn at(self, position: i32) -> StepperView {
        StepperView { position, ..self }
    }

    /// The commands of a move by `steps` at this stepper's rate.
    pub open spec fn move_by(self, steps: int) -> Seq<PinCommand> {
        spec_step_commands(spec_min_delay_us(self.max_speed_hz as int), steps)
    }

    /// The commands of a move to `target_position`: none where the stepper
    /// is there already.
    pub open spec fn move_to(self, target_position: i32) -> Seq<PinCommand> {
        if target_position == self.position {
            Seq::empty()
        } else {
            self.move_by(target_position - self.position)
        }
    }

    /// Whether one move reaches `target_position` from where the stepper is:
    /// whether the distance is a 32-bit number of steps.
    pub open spec fn can_step_to(self, target_position: i32) -> bool {
        i32::MIN <= target_position - self.position <= i32::MAX
    }

    /// What switching the driver on plays: the enable line, if there is one,
    /// goes low.
    pub open spec fn enable(self) -> Seq<PinCommand> {
        if self.has_enable {
            seq![PinCommand::SetLow(Line::Enable)]
        } else {
            Seq::empty()
        }
    }

    /// What switching the driver off plays: the enable line, if there is
    /// one, goes high.
    pub open spec fn disable(self) -> Seq<PinCommand> {
        if self.has_enable {
            seq![PinCommand::SetHigh(Line::Enable)]
        } else {
            Seq::empty()
        }
    }
}

/// A stepper motor behind a step/direction driver with an optional enable
/// line.
///
/// The position is a signed count of steps. It changes by whole steps only:
/// by exactly the number of steps of each move, whatever the shape of the
/// ramp.
#[derive(Debug)]
pub struct Stepper {
    has_enable: bool,
    max_speed_hz: Fixed,
    acceleration: Fixed,
    position: i32,
}

impl View for Stepper {
    type V = StepperView;

    closed spec fn view(&self) -> StepperView {
        StepperView {
            has_enable: self.has_enable,
            max_speed_hz: self.max_speed_hz,
            acceleration: self.acceleration,
            position: self.position,
        }
    }
}

impl Stepper {
    /// A stepper at position 0.
    pub fn new(has_enable: bool, max_speed_hz: Fixed, acceleration: Fixed) -> (s: Self)
        ensures
            s@ == (StepperView { has_enable, max_speed_hz, acceleration, position: 0 }),
    {
        Self { has_enable, max_speed_hz, acceleration, position: 0 }
    }

    /// Switches the driver on: the enable line, if there is one, goes low.
    pub fn enable(&self) -> (commands: Vec<PinCommand>)
        ensures
            commands@ == self@.enable(),
    {
        let mut commands: Vec<PinCommand> = Vec::new();
        if self.has_enable {
            commands.push(PinCommand::SetLow(Line::Enable));
        }
        proof {
            assert(commands@ =~= self@.enable());
        }
        commands
    }

    /// Switches the driver off: the enable line, if there is one, goes high.
    pub fn disable(&self) -> (commands: Vec<PinCommand>)
        ensures
            commands@ == self@.disable(),
    {
        let mut commands: Vec<PinCommand> = Vec::new();
        if self.has_enable {
            commands.push(PinCommand::SetHigh(Line::Enable));
        }
        proof {
            assert(commands@ =~= self@.disable());
        }
        commands
    }

    /// Moves by `steps`: sets the direction, then runs the ramped pulse train
    /// and counts the position up or down by one after each pulse. The
    /// position changes by exactly `steps`.
    pub fn step(&mut self, steps: i32) -> (commands: Vec<PinCommand>)
        requires
            i32::MIN <= old(self)@.position + steps <= i32::MAX,
        ensures
            final(self)@ == old(self)@.at((old(self)@.position + steps) as i32),
            final(self)@.position == old(self)@.position + steps,
            commands@ == old(self)@.move_by(steps as int),
    {
        let mut commands: Vec<PinCommand> = Vec::new();
        if steps > 0 {
            commands.push(PinCommand::SetLow(Line::Dir));
        } else {
            commands.push(PinCommand::SetHigh(Line::Dir));
        }
        commands.push(PinCommand::SetLow(Line::Dir));
        self.perform_ramped_steps(&mut commands, steps);
        proof {
            assert(commands@ =~= old(self)@.move_by(steps as int));
        }
        commands
    }

    /// Appends the pulse train of a move by `delta_steps` to `commands` and
    /// counts the position along.
    fn perform_ramped_steps(&mut self, commands: &mut Vec<PinCommand>, delta_steps: i32)
        requires
            i32::MIN <= old(self)@.position + delta_steps <= i32::MAX,
        ensures
            final(self)@ == old(self)@.at((old(self)@.position + delta_steps) as i32),
            final(commands)@ == old(commands)@ + spec_pulse_train(
                spec_min_delay_us(old(self)@.max_speed_hz as int),
                abs(delta_steps as int),
                abs(delta_steps as int),
            ),
    {
        let steps: u32 = if delta_steps >= 0 {
            delta_steps as u32
        } else {
            (-(delta_steps as i64)) as u32
        };
        let unit: i32 = if delta_steps > 0 {
            1
        } else if delta_steps < 0 {
            -1
        } else {
            0
        };
        let min_delay: u32 = min_delay_us(self.max_speed_hz);
        let mut i: u32 = 0;
        while i < steps
            invariant
                i <= steps,
                steps == abs(delta_steps as int),
                unit == if delta_steps > 0 {
                    1int
                } else if delta_steps < 0 {
                    -1int
                } else {
                    0int
                },
                min_delay == spec_min_delay_us(old(self)@.max_speed_hz as int),
                i32::MIN <= old(self).position + delta_steps <= i32::MAX,
                self.position == old(self).position + unit * i,
                self@ == old(self)@.at(self.position),
                commands@ == old(commands)@ + spec_pulse_train(
                    min_delay as int,
                    steps as int,
                    i as int,
                ),
            decreases steps - i,
        {
            let adjusted_delay: u32 = pulse_delay_us(min_delay, i, steps);
            Self::pulse_step(commands, adjusted_delay);
            proof {
                assert(unit * (i + 1) == unit * i + unit) by (nonlinear_arith);
                assert(unit * i == if delta_steps > 0 {
                    i as int
                } else {
                    -(i as int)
                }) by (nonlinear_arith)
                    requires
                        unit == 1 && delta_steps > 0 || unit == -1 && delta_steps < 0,
                ;
                assert(commands@ =~= old(commands)@ + spec_pulse_train(
                    min_delay as int,
                    steps as int,
                    i + 1,
                ));
            }
            self.position = self.position + unit;
            i = i + 1;
        }
        proof {
            assert(unit * steps == delta_steps) by (nonlinear_arith)
                requires
                    steps == abs(delta_steps as int),
                    unit == if delta_steps > 0 {
                        1int
                    } else if delta_steps < 0 {
                        -1int
                    } else {
                        0int
                    },
            ;
        }
    }

    /// Appends one pulse of the given width to `commands`.
    fn pulse_step(commands: &mut Vec<PinCommand>, pulse_width_us: u32)
        ensures
            final(commands)@ == old(commands)@ + spec_pulse(pulse_width_us as int),
    {
        commands.push(PinCommand::SetHigh(Line::Step));
        commands.push(PinCommand::DelayUs(pulse_width_us / 2));
        commands.push(PinCommand::SetLow(Line::Step));
        commands.push(PinCommand::DelayUs(pulse_width_us / 2));
        proof {
            assert(commands@ =~= old(commands)@ + spec_pulse(pulse_width_us as int));
        }
    }

    /// The position in steps.
    pub fn position(&self) -> (p: i32)
        ensures
            p == self@.position,
    {
        self.position
    }

    /// Overwrites the position. Nothing moves.
    pub fn set_position(&mut self, pos: i32)
        ensures
            final(self)@ == old(self)@.at(pos),
    {
        self.position = pos;
    }

    /// Sets the full step rate in steps per second.
    pub fn set_max_speed(&mut self, max_speed_hz: Fixed)
        ensures
            final(self)@ == (StepperView { max_speed_hz, ..old(self)@ }),
    {
        self.max_speed_hz = max_speed_hz;
    }

    /// Stores the acceleration.
    pub fn set_acceleration(&mut self, acceleration: Fixed)
        ensures
            final(self)@ == (StepperView { acceleration, ..old(self)@ }),
    {
        self.acceleration = acceleration;
    }

    /// The full step rate in steps per second.
    pub fn get_max_speed(&self) -> (v: Fixed)
        ensures
            v == self@.max_speed_hz,
    {
        self.max_speed_hz
    }

    /// The stored acceleration.
    pub fn get_acceleration(&self) -> (v: Fixed)
        ensures
            v == self@.acceleration,
    {
        self.acceleration
    }

    /// Whether one move reaches `target_position` from where the stepper is.
    pub fn can_step_to(&self, target_position: i32) -> (ok: bool)
        ensures
            ok == self@.can_step_to(target_position),
    {
        let distance: i64 = target_position as i64 - self.position as i64;
        -0x8000_0000 <= distance && distance <= 0x7fff_ffff
    }

    /// Moves to `target_position`. Where the stepper is there already, no
    /// line is touched.
    pub fn step_to_position(&mut self, target_position: i32) -> (commands: Vec<PinCommand>)
        requires
            old(self)@.can_step_to(target_position),
        ensures
            final(self)@ == old(self)@.at(target_position),
            commands@ == old(self)@.move_to(target_position),
    {
        let delta_steps: i32 = target_position - self.position;
        if delta_steps != 0 {
            self.step(delta_steps)
        } else {
            Vec::new()
        }
    }
}

} // verus!
