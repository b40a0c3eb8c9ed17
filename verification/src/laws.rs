//! The behavioural laws of the control logic, stated over the actuator
//! model and proved once for every starting state: what each command does
//! to the physical outputs, and what the session lifecycle guarantees.

use vstd::prelude::*;
use crate::actuator::{
    apply_steps, lemma_script_five, lemma_script_one, lemma_script_three, lemma_script_two,
    script_delay_ms, ActuatorState, LedState, Motor, MotorDirection, MotorState, Step,
};
use crate::colors::{color_table, ColorInfo, COLOR_COUNT};
use crate::decode::{arm_command_of_byte, direction_of_byte, ArmCommand, Direction};
use crate::sequence::{
    arm_steps, direction_steps, left_motor_direction, led_steps, right_motor_direction,
    stop_motors_steps, ARM_PAUSE_MS, CATAPULT_FIRE_POSITION, CATAPULT_READY_POSITION,
    CATAPULT_REST_POSITION, DRIVE_PULSE_MS, DRIVE_SPEED,
};
use crate::session::{controller_inv, event_steps, event_transition, Controller, Event};

verus! {

/// The tank-drive table: the motor senses each heading selects.
pub proof fn lemma_direction_combination()
    ensures
        left_motor_direction(Direction::Forward) == MotorDirection::Forward,
        right_motor_direction(Direction::Forward) == MotorDirection::Forward,
        left_motor_direction(Direction::Backwards) == MotorDirection::Reverse,
        right_motor_direction(Direction::Backwards) == MotorDirection::Reverse,
        left_motor_direction(Direction::Left) == MotorDirection::Reverse,
        right_motor_direction(Direction::Left) == MotorDirection::Forward,
        left_motor_direction(Direction::Right) == MotorDirection::Forward,
        right_motor_direction(Direction::Right) == MotorDirection::Reverse,
{
}

/// A drive pulse, from any starting state: while the pulse lasts both
/// motors run at full scale in the combination the heading selects, the
/// script blocks for exactly the fixed pulse length, and afterwards both
/// motors stand stopped with the servo and the LED strip untouched.
pub proof fn lemma_drive_pulse(s: ActuatorState, d: Direction)
    ensures
        apply_steps(s, direction_steps(d).take(2)).left_motor == (MotorState::Running {
            speed: DRIVE_SPEED,
            direction: left_motor_direction(d),
        }),
        apply_steps(s, direction_steps(d).take(2)).right_motor == (MotorState::Running {
            speed: DRIVE_SPEED,
            direction: right_motor_direction(d),
        }),
        script_delay_ms(direction_steps(d)) == DRIVE_PULSE_MS,
        apply_steps(s, direction_steps(d)).left_motor is Stopped,
        apply_steps(s, direction_steps(d)).right_motor is Stopped,
        apply_steps(s, direction_steps(d)).servo == s.servo,
        apply_steps(s, direction_steps(d)).staged_leds == s.staged_leds,
        apply_steps(s, direction_steps(d)).shown_leds == s.shown_leds,
{
    let drive_left = Step::Drive {
        motor: Motor::Left,
        speed: DRIVE_SPEED,
        direction: left_motor_direction(d),
    };
    let drive_right = Step::Drive {
        motor: Motor::Right,
        speed: DRIVE_SPEED,
        direction: right_motor_direction(d),
    };
    let pause = Step::Delay { ms: DRIVE_PULSE_MS };
    let stop_left = Step::Stop { motor: Motor::Left };
    let stop_right = Step::Stop { motor: Motor::Right };
    assert(direction_steps(d).take(2) =~= seq![drive_left, drive_right]);
    lemma_script_two(s, drive_left, drive_right);
    lemma_script_five(s, drive_left, drive_right, pause, stop_left, stop_right);
}

/// A direction byte inside the valid range, dispatched as an event, gives
/// exactly the drive pulse of the heading it encodes, and the pulse leaves
/// both motors stopped from any starting state.
pub proof fn lemma_direction_byte_pulse(s: ActuatorState, value: u8)
    requires
        value <= 3,
    ensures
        event_steps(Event::DirectionWrite { value }) == direction_steps(direction_of_byte(value)),
        apply_steps(s, event_steps(Event::DirectionWrite { value })).left_motor is Stopped,
        apply_steps(s, event_steps(Event::DirectionWrite { value })).right_motor is Stopped,
        script_delay_ms(event_steps(Event::DirectionWrite { value })) == DRIVE_PULSE_MS,
{
    lemma_drive_pulse(s, direction_of_byte(value));
}

/// An arm byte, dispatched as an event, gives the fire motion exactly for
/// the byte 1 and the rest motion for every other byte.
pub proof fn lemma_arm_byte(value: u8)
    ensures
        value == 1 ==> event_steps(Event::ArmWrite { value }) == arm_steps(ArmCommand::Fire),
        value != 1 ==> event_steps(Event::ArmWrite { value }) == arm_steps(ArmCommand::Rest),
{
    assert(arm_command_of_byte(value) == (if value == 1 {
        ArmCommand::Fire
    } else {
        ArmCommand::Rest
    }));
}

/// A direction byte outside the valid range gives rise to no step at all:
/// no output changes, whatever the state was.
pub proof fn lemma_invalid_direction_is_noop(s: ActuatorState, value: u8)
    requires
        value > 3,
    ensures
        event_steps(Event::DirectionWrite { value }) == Seq::<Step>::empty(),
        apply_steps(s, event_steps(Event::DirectionWrite { value })) == s,
{
}

/// An LED write, from any starting state: an index inside the color table
/// leaves the strip showing exactly that entry (dark for "off"), committed;
/// any other byte leaves every output as it was. No LED script touches the
/// motors or the servo.
pub proof fn lemma_led_write(s: ActuatorState, value: u8)
    ensures
        value < COLOR_COUNT ==> apply_steps(s, led_steps(value)).shown_leds == (match color_table(
            value as int,
        ) {
            ColorInfo::Color { rgb, .. } => LedState::Lit { color: rgb },
            ColorInfo::Off => LedState::Off,
        }),
        value >= COLOR_COUNT ==> apply_steps(s, led_steps(value)) == s,
        apply_steps(s, led_steps(value)).left_motor == s.left_motor,
        apply_steps(s, led_steps(value)).right_motor == s.right_motor,
        apply_steps(s, led_steps(value)).servo == s.servo,
        script_delay_ms(led_steps(value)) == 0,
{
    if value < COLOR_COUNT {
        match color_table(value as int) {
            ColorInfo::Color { rgb, .. } => {
                lemma_script_two(s, Step::SetAllLeds { color: rgb }, Step::CommitLeds);
            },
            ColorInfo::Off => {
                lemma_script_two(s, Step::ClearAllLeds, Step::CommitLeds);
            },
        }
    }
}

/// Firing the catapult, from any starting state: the arm passes through the
/// ready position first, the fixed pause stands between the two servo moves
/// and is never skipped, and the script ends with the servo at the fire
/// position, motors and LED strip untouched. The arm does not return to
/// rest on its own.
pub proof fn lemma_arm_fire(s: ActuatorState)
    ensures
        arm_steps(ArmCommand::Fire) == seq![
            Step::Servo { position: CATAPULT_READY_POSITION },
            Step::Delay { ms: ARM_PAUSE_MS },
            Step::Servo { position: CATAPULT_FIRE_POSITION },
        ],
        apply_steps(s, arm_steps(ArmCommand::Fire).take(1)).servo == CATAPULT_READY_POSITION,
        apply_steps(s, arm_steps(ArmCommand::Fire).take(2)).servo == CATAPULT_READY_POSITION,
        script_delay_ms(arm_steps(ArmCommand::Fire)) == ARM_PAUSE_MS,
        apply_steps(s, arm_steps(ArmCommand::Fire)).servo == CATAPULT_FIRE_POSITION,
        apply_steps(s, arm_steps(ArmCommand::Fire)).left_motor == s.left_motor,
        apply_steps(s, arm_steps(ArmCommand::Fire)).right_motor == s.right_motor,
        apply_steps(s, arm_steps(ArmCommand::Fire)).shown_leds == s.shown_leds,
{
    let ready = Step::Servo { position: CATAPULT_READY_POSITION };
    let pause = Step::Delay { ms: ARM_PAUSE_MS };
    let fire = Step::Servo { position: CATAPULT_FIRE_POSITION };
    assert(arm_steps(ArmCommand::Fire).take(1) =~= seq![ready]);
    assert(arm_steps(ArmCommand::Fire).take(2) =~= seq![ready, pause]);
    lemma_script_one(s, ready);
    lemma_script_two(s, ready, pause);
    lemma_script_three(s, ready, pause, fire);
}

/// Returning the arm to rest, from any starting state: a single servo move
/// straight to the rest position, with no pause anywhere in the script and
/// every other output untouched.
pub proof fn lemma_arm_rest(s: ActuatorState)
    ensures
        arm_steps(ArmCommand::Rest) == seq![Step::Servo { position: CATAPULT_REST_POSITION }],
        apply_steps(s, arm_steps(ArmCommand::Rest)).servo == CATAPULT_REST_POSITION,
        script_delay_ms(arm_steps(ArmCommand::Rest)) == 0,
        apply_steps(s, arm_steps(ArmCommand::Rest)).left_motor == s.left_motor,
        apply_steps(s, arm_steps(ArmCommand::Rest)).right_motor == s.right_motor,
        apply_steps(s, arm_steps(ArmCommand::Rest)).shown_leds == s.shown_leds,
{
    lemma_script_one(s, Step::Servo { position: CATAPULT_REST_POSITION });
}

/// The script run before every advertising cycle leaves both drive motors
/// stopped, from any state a dropped connection may have left the outputs
/// in — whatever sequence was mid-flight.
pub proof fn lemma_stop_before_advertising(s: ActuatorState)
    ensures
        apply_steps(s, stop_motors_steps()).left_motor is Stopped,
        apply_steps(s, stop_motors_steps()).right_motor is Stopped,
        apply_steps(s, stop_motors_steps()).servo == s.servo,
        apply_steps(s, stop_motors_steps()).staged_leds == s.staged_leds,
        apply_steps(s, stop_motors_steps()).shown_leds == s.shown_leds,
{
    lemma_script_two(s, Step::Stop { motor: Motor::Left }, Step::Stop { motor: Motor::Right });
}

/// Servicing events never multiplies connections: no session event changes
/// the phase or the connection handle, so the single session a controller
/// holds is the one it accepted, until it ends.
pub proof fn lemma_events_keep_connection(c: Controller, e: Event)
    requires
        controller_inv(c),
    ensures
        event_transition(c, e).phase == c.phase,
        event_transition(c, e).connection == c.connection,
        controller_inv(event_transition(c, e)),
{
}

} // verus!
