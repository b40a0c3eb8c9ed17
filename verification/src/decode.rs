//! The command decoder: pure functions from the raw byte received on each
//! command channel to a typed command. Classification only, no side effects.

use vstd::prelude::*;
use crate::colors::COLOR_COUNT;

verus! {

/// A decoded drive heading. The wire encoding is a single byte: 0 forward,
/// 1 left, 2 right, 3 backwards; every other byte is invalid.
#[derive(Structural, Debug, Copy, Clone, PartialEq, Eq)]
pub enum Direction {
    Forward,
    Left,
    Right,
    Backwards,
}

/// A decoded catapult arm command: snap through ready to fire, or return
/// to rest.
#[derive(Structural, Debug, Copy, Clone, PartialEq, Eq)]
pub enum ArmCommand {
    Fire,
    Rest,
}

/// A diagnostic raised while servicing a session. None of these ends the
/// connection; they are reported and the offending event is otherwise
/// ignored.
#[derive(Structural, Debug, Copy, Clone, PartialEq, Eq)]
pub enum Diagnostic {
    /// A direction byte outside the valid range, carried for reporting.
    InvalidDirection { value: u8 },
    /// The remote toggled its LED notification subscription; the core
    /// records the flag and takes no further action.
    SubscriptionChange { enabled: bool },
}

/// The direction encoded by a byte, defined for bytes 0 to 3.
pub open spec fn direction_of_byte(value: u8) -> Direction {
    if value == 0 {
        Direction::Forward
    } else if value == 1 {
        Direction::Left
    } else if value == 2 {
        Direction::Right
    } else {
        Direction::Backwards
    }
}

/// Decode a direction byte. Bytes 0 to 3 map one-to-one onto the headings;
/// any other byte is rejected with a diagnostic and must not move a motor.
pub fn decode_direction(value: u8) -> (r: Result<Direction, Diagnostic>)
    ensures
        value <= 3 ==> r == Ok::<Direction, Diagnostic>(direction_of_byte(value)),
        value > 3 ==> r == Err::<Direction, Diagnostic>(Diagnostic::InvalidDirection { value }),
{
    match value {
        0 => Ok(Direction::Forward),
        1 => Ok(Direction::Left),
        2 => Ok(Direction::Right),
        3 => Ok(Direction::Backwards),
        _ => Err(Diagnostic::InvalidDirection { value }),
    }
}

/// Decode an LED index byte. A byte inside the color table range is the
/// index itself; any other byte is silently ignored.
pub fn decode_led_index(value: u8) -> (r: Option<u8>)
    ensures
        value < COLOR_COUNT ==> r == Some(value),
        value >= COLOR_COUNT ==> r is None,
{
    if value < COLOR_COUNT {
        Some(value)
    } else {
        None
    }
}

/// The arm command encoded by a byte: 1 means ready-then-fire, every other
/// byte means return to rest.
pub open spec fn arm_command_of_byte(value: u8) -> ArmCommand {
    if value == 1 {
        ArmCommand::Fire
    } else {
        ArmCommand::Rest
    }
}

/// Decode a catapult arm byte. Total: every byte is a command.
pub fn decode_arm_trigger(value: u8) -> (r: ArmCommand)
    ensures
        r == arm_command_of_byte(value),
{
    if value == 1 {
        ArmCommand::Fire
    } else {
        ArmCommand::Rest
    }
}

} // verus!
