//! The actuation sequencer: turns one decoded command into a bounded,
//! time-boxed script of actuator operations with fixed inter-step delays.
//! The driver layer executes a script to completion before the next command
//! is dispatched, so no two sequences ever overlap.

use vstd::prelude::*;
use crate::actuator::{Motor, MotorDirection, Step};
use crate::colors::{color_table, ColorInfo, COLOR_COUNT};
use crate::decode::{ArmCommand, Direction};

verus! {

/// Catapult servo position at rest, in device angular units.
pub const CATAPULT_REST_POSITION: u16 = 115;

/// Catapult servo position with the arm drawn ready, in device angular units.
pub const CATAPULT_READY_POSITION: u16 = 105;

/// Catapult servo position after firing, in device angular units.
pub const CATAPULT_FIRE_POSITION: u16 = 135;

/// Pause between drawing the arm ready and firing, in milliseconds.
pub const ARM_PAUSE_MS: u16 = 100;

/// Length of one drive pulse, in milliseconds.
pub const DRIVE_PULSE_MS: u16 = 250;

/// Full-scale drive speed.
pub const DRIVE_SPEED: u8 = 255;

/// The sense the left motor runs in to realize a heading (tank drive).
pub open spec fn left_motor_direction(d: Direction) -> MotorDirection {
    match d {
        Direction::Forward => MotorDirection::Forward,
        Direction::Left => MotorDirection::Reverse,
        Direction::Right => MotorDirection::Forward,
        Direction::Backwards => MotorDirection::Reverse,
    }
}

/// The sense the right motor runs in to realize a heading (tank drive).
pub open spec fn right_motor_direction(d: Direction) -> MotorDirection {
    match d {
        Direction::Forward => MotorDirection::Forward,
        Direction::Left => MotorDirection::Forward,
        Direction::Right => MotorDirection::Reverse,
        Direction::Backwards => MotorDirection::Reverse,
    }
}

/// The script for one drive pulse: both motors at full scale in the
/// combination that realizes the heading, one fixed delay, then both
/// motors stopped.
pub open spec fn direction_steps(d: Direction) -> Seq<Step> {
    seq![
        Step::Drive {
            motor: Motor::Left,
            speed: DRIVE_SPEED,
            direction: left_motor_direction(d),
        },
        Step::Drive {
            motor: Motor::Right,
            speed: DRIVE_SPEED,
            direction: right_motor_direction(d),
        },
        Step::Delay { ms: DRIVE_PULSE_MS },
        Step::Stop { motor: Motor::Left },
        Step::Stop { motor: Motor::Right },
    ]
}

/// Build the drive pulse script for a heading.
pub fn direction_sequence(d: Direction) -> (r: Vec<Step>)
    ensures
        r@ == direction_steps(d),
{
    let left = Step::Drive {
        motor: Motor::Left,
        speed: DRIVE_SPEED,
        direction: match d {
            Direction::Forward => MotorDirection::Forward,
            Direction::Left => MotorDirection::Reverse,
            Direction::Right => MotorDirection::Forward,
            Direction::Backwards => MotorDirection::Reverse,
        },
    };
    let right = Step::Drive {
        motor: Motor::Right,
        speed: DRIVE_SPEED,
        direction: match d {
            Direction::Forward => MotorDirection::Forward,
            Direction::Left => MotorDirection::Forward,
            Direction::Right => MotorDirection::Reverse,
            Direction::Backwards => MotorDirection::Reverse,
        },
    };
    let r = vec![
        left,
        right,
        Step::Delay { ms: DRIVE_PULSE_MS },
        Step::Stop { motor: Motor::Left },
        Step::Stop { motor: Motor::Right },
    ];
    proof {
        assert(r@ =~= direction_steps(d));
    }
    r
}

/// The script for an arm command. Fire draws the arm to the ready position,
/// holds it there for the fixed pause, then snaps to the fire position; it
/// does not return to rest on its own. Rest moves straight to the rest
/// position with no pause.
pub open spec fn arm_steps(c: ArmCommand) -> Seq<Step> {
    match c {
        ArmCommand::Fire => seq![
            Step::Servo { position: CATAPULT_READY_POSITION },
            Step::Delay { ms: ARM_PAUSE_MS },
            Step::Servo { position: CATAPULT_FIRE_POSITION },
        ],
        ArmCommand::Rest => seq![Step::Servo { position: CATAPULT_REST_POSITION }],
    }
}

/// Build the catapult arm script for a command.
pub fn arm_sequence(c: ArmCommand) -> (r: Vec<Step>)
    ensures
        r@ == arm_steps(c),
{
    match c {
        ArmCommand::Fire => {
            let r = vec![
                Step::Servo { position: CATAPULT_READY_POSITION },
                Step::Delay { ms: ARM_PAUSE_MS },
                Step::Servo { position: CATAPULT_FIRE_POSITION },
            ];
            proof {
                assert(r@ =~= arm_steps(c));
            }
            r
        },
        ArmCommand::Rest => {
            let r = vec![Step::Servo { position: CATAPULT_REST_POSITION }];
            proof {
                assert(r@ =~= arm_steps(c));
            }
            r
        },
    }
}

/// The script for an LED index. An index naming a color stages that color
/// on the whole strip; index 0 ("off") stages the strip dark; either is then
/// committed to the hardware. An index outside the table does nothing.
pub open spec fn led_steps(index: u8) -> Seq<Step> {
    if index < COLOR_COUNT {
        match color_table(index as int) {
            ColorInfo::Color { rgb, .. } => seq![
                Step::SetAllLeds { color: rgb },
                Step::CommitLeds,
            ],
            ColorInfo::Off => seq![Step::ClearAllLeds, Step::CommitLeds],
        }
    } else {
        Seq::empty()
    }
}

/// Build the LED script for an index byte.
pub fn led_sequence(index: u8) -> (r: Vec<Step>)
    ensures
        r@ == led_steps(index),
{
    match crate::colors::color_lookup(index) {
        Some(ColorInfo::Color { rgb, .. }) => {
            let r = vec![Step::SetAllLeds { color: rgb }, Step::CommitLeds];
            proof {
                assert(r@ =~= led_steps(index));
            }
            r
        },
        Some(ColorInfo::Off) => {
            let r = vec![Step::ClearAllLeds, Step::CommitLeds];
            proof {
                assert(r@ =~= led_steps(index));
            }
            r
        },
        None => {
            let r: Vec<Step> = Vec::new();
            proof {
                assert(r@ =~= led_steps(index));
            }
            r
        },
    }
}

/// The script that halts the drive: both motors stopped. Run before every
/// advertising cycle, so that a dropped connection never leaves the robot
/// driving.
pub open spec fn stop_motors_steps() -> Seq<Step> {
    seq![Step::Stop { motor: Motor::Left }, Step::Stop { motor: Motor::Right }]
}

/// Build the script that stops both drive motors.
pub fn stop_motors_sequence() -> (r: Vec<Step>)
    ensures
        r@ == stop_motors_steps(),
{
    let r = vec![Step::Stop { motor: Motor::Left }, Step::Stop { motor: Motor::Right }];
    proof {
        assert(r@ =~= stop_motors_steps());
    }
    r
}

/// The script run once at power-on: strip dark and committed, catapult at
/// rest.
pub open spec fn startup_steps() -> Seq<Step> {
    seq![
        Step::ClearAllLeds,
        Step::CommitLeds,
        Step::Servo { position: CATAPULT_REST_POSITION },
    ]
}

/// Build the power-on script.
pub fn startup_sequence() -> (r: Vec<Step>)
    ensures
        r@ == startup_steps(),
{
    let r = vec![
        Step::ClearAllLeds,
        Step::CommitLeds,
        Step::Servo { position: CATAPULT_REST_POSITION },
    ];
    proof {
        assert(r@ =~= startup_steps());
    }
    r
}

} // verus!
