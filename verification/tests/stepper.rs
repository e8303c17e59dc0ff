use open_pi_scope::fixed::{from_int, Fixed, SCALE};
use open_pi_scope::stepper_motor::{min_delay_us, pulse_delay_us, Line, PinCommand, Stepper};

fn pulses(commands: &[PinCommand]) -> usize {
    commands.iter().filter(|c| **c == PinCommand::SetHigh(Line::Step)).count()
}

fn delays(commands: &[PinCommand]) -> Vec<u32> {
    let mut out = Vec::new();
    for c in commands {
        if let PinCommand::DelayUs(d) = c {
            out.push(*d);
        }
    }
    out
}

#[test]
fn step_changes_position_by_exactly_the_step_count() {
    let mut stepper = Stepper::new(false, from_int(1000), 0);
    stepper.set_position(7);
    for d in [100, -37, 0, 1, -1, -250] {
        let before = stepper.position();
        let commands = stepper.step(d);
        assert_eq!(stepper.position(), before + d);
        assert_eq!(pulses(&commands), d.unsigned_abs() as usize);
        assert_eq!(commands.len(), 2 + 4 * d.unsigned_abs() as usize);
    }
}

#[test]
fn step_does_not_depend_on_the_rate() {
    for rate in [0, -5 * SCALE, 1, SCALE, 1000 * SCALE, Fixed::MAX] {
        let mut stepper = Stepper::new(true, rate, 0);
        let commands = stepper.step(-12);
        assert_eq!(stepper.position(), -12);
        assert_eq!(pulses(&commands), 12);
    }
}

#[test]
fn hundred_steps_at_one_kilohertz() {
    let mut stepper = Stepper::new(false, from_int(1000), 0);
    stepper.set_position(40);
    let commands = stepper.step(100);
    assert_eq!(pulses(&commands), 100);
    assert_eq!(stepper.position(), 140);
    let halves = delays(&commands);
    assert_eq!(halves.len(), 200);
    let shortest = halves.iter().min().unwrap();
    assert!(2 * shortest >= 1000 / 2);
    assert_eq!(*shortest, 500);
    assert_eq!(*halves.iter().max().unwrap(), 5000);
}

#[test]
fn ramp_is_slow_at_the_ends_and_fastest_in_the_middle() {
    assert_eq!(pulse_delay_us(1000, 0, 100), 10_000);
    assert_eq!(pulse_delay_us(1000, 4, 100), 10_000);
    assert_eq!(pulse_delay_us(1000, 5, 100), 10_000);
    assert_eq!(pulse_delay_us(1000, 6, 100), 8333);
    assert_eq!(pulse_delay_us(1000, 25, 100), 2000);
    assert_eq!(pulse_delay_us(1000, 30, 100), 1666);
    assert_eq!(pulse_delay_us(1000, 49, 100), 1020);
    assert_eq!(pulse_delay_us(1000, 50, 100), 1000);
    assert_eq!(pulse_delay_us(1000, 51, 100), 1020);
    assert_eq!(pulse_delay_us(1000, 75, 100), 2000);
    assert_eq!(pulse_delay_us(1000, 99, 100), 10_000);
    assert_eq!(pulse_delay_us(1000, 0, 1), 10_000);
    assert_eq!(pulse_delay_us(1000, 1, 2), 1000);
}

#[test]
fn ramp_delay_stays_between_one_and_ten_times_the_shortest() {
    for n in [1u32, 2, 3, 7, 19, 20, 21, 100, 1001] {
        for i in 0..n {
            let d = pulse_delay_us(250, i, n);
            assert!(d >= 250 && d <= 2500);
            assert_eq!(d, pulse_delay_us(250, if i == 0 { 0 } else { n - i }, n));
        }
    }
}

#[test]
fn ramp_delay_saturates() {
    assert_eq!(pulse_delay_us(u32::MAX, 0, 10), u32::MAX);
    assert_eq!(pulse_delay_us(u32::MAX, 5, 10), u32::MAX);
    assert_eq!(pulse_delay_us(0, 3, 10), 0);
}

#[test]
fn shortest_delay_is_one_second_over_the_rate() {
    assert_eq!(min_delay_us(from_int(1000)), 1000);
    assert_eq!(min_delay_us(from_int(1)), 1_000_000);
    assert_eq!(min_delay_us(100_000), 10_000_000);
    assert_eq!(min_delay_us(3 * SCALE), 333_333);
    assert_eq!(min_delay_us(0), u32::MAX);
    assert_eq!(min_delay_us(-1), 0);
    assert_eq!(min_delay_us(1), u32::MAX);
    assert_eq!(min_delay_us(Fixed::MAX), 0);
}

#[test]
fn pulse_holds_the_line_high_and_low_for_half_the_width() {
    let mut stepper = Stepper::new(false, from_int(1000), 0);
    let commands = stepper.step(1);
    assert_eq!(
        commands,
        vec![
            PinCommand::SetLow(Line::Dir),
            PinCommand::SetLow(Line::Dir),
            PinCommand::SetHigh(Line::Step),
            PinCommand::DelayUs(5000),
            PinCommand::SetLow(Line::Step),
            PinCommand::DelayUs(5000),
        ]
    );
}

#[test]
fn direction_line_is_set_by_the_sign_and_then_driven_low() {
    let mut stepper = Stepper::new(false, from_int(500), 0);
    let forward = stepper.step(2);
    assert_eq!(forward[0], PinCommand::SetLow(Line::Dir));
    assert_eq!(forward[1], PinCommand::SetLow(Line::Dir));
    let backward = stepper.step(-2);
    assert_eq!(backward[0], PinCommand::SetHigh(Line::Dir));
    assert_eq!(backward[1], PinCommand::SetLow(Line::Dir));
    let none = stepper.step(0);
    assert_eq!(none, vec![PinCommand::SetHigh(Line::Dir), PinCommand::SetLow(Line::Dir)]);
    assert_eq!(stepper.position(), 0);
}

#[test]
fn enable_line_is_active_low() {
    let with_line = Stepper::new(true, from_int(1000), 0);
    assert_eq!(with_line.enable(), vec![PinCommand::SetLow(Line::Enable)]);
    assert_eq!(with_line.disable(), vec![PinCommand::SetHigh(Line::Enable)]);
    assert_eq!(with_line.position(), 0);
    let without = Stepper::new(false, from_int(1000), 0);
    assert_eq!(without.enable(), vec![]);
    assert_eq!(without.disable(), vec![]);
}

#[test]
fn set_position_moves_nothing() {
    let mut stepper = Stepper::new(true, from_int(1000), from_int(3));
    stepper.set_position(-4321);
    assert_eq!(stepper.position(), -4321);
    assert_eq!(stepper.get_max_speed(), from_int(1000));
    assert_eq!(stepper.get_acceleration(), from_int(3));
}

#[test]
fn step_to_position_moves_by_the_difference() {
    let mut stepper = Stepper::new(false, from_int(1000), 0);
    stepper.set_position(10);
    let there = stepper.step_to_position(-5);
    assert_eq!(stepper.position(), -5);
    assert_eq!(pulses(&there), 15);
    assert_eq!(there[0], PinCommand::SetHigh(Line::Dir));
    let again = stepper.step_to_position(-5);
    assert_eq!(again, vec![]);
    assert_eq!(stepper.position(), -5);
}

#[test]
fn reach_of_one_move_is_a_thirty_two_bit_distance() {
    let mut stepper = Stepper::new(false, from_int(1000), 0);
    assert!(stepper.can_step_to(i32::MAX));
    assert!(stepper.can_step_to(i32::MIN));
    stepper.set_position(-1);
    assert!(!stepper.can_step_to(i32::MAX));
    assert!(stepper.can_step_to(i32::MAX - 1));
    stepper.set_position(1);
    assert!(!stepper.can_step_to(i32::MIN));
    stepper.set_position(i32::MIN);
    assert!(stepper.can_step_to(-1));
    assert!(!stepper.can_step_to(0));
}

#[test]
fn speed_and_acceleration_are_stored() {
    let mut stepper = Stepper::new(false, from_int(1), from_int(2));
    stepper.set_max_speed(2_500_000);
    stepper.set_acceleration(-7);
    assert_eq!(stepper.get_max_speed(), 2_500_000);
    assert_eq!(stepper.get_acceleration(), -7);
    assert_eq!(stepper.position(), 0);
    let commands = stepper.step(1);
    assert_eq!(delays(&commands), vec![2_000_000, 2_000_000]);
}
