use catapult::actuator::{Motor, MotorDirection, Rgb, Step};
use catapult::colors::{color_lookup, ColorInfo, ColorName, COLOR_COUNT};
use catapult::decode::{decode_arm_trigger, decode_direction, decode_led_index, ArmCommand, Diagnostic, Direction};
use catapult::sequence::{
    arm_sequence, direction_sequence, led_sequence, startup_sequence, stop_motors_sequence,
    ARM_PAUSE_MS, CATAPULT_FIRE_POSITION, CATAPULT_READY_POSITION, CATAPULT_REST_POSITION,
    DRIVE_PULSE_MS, DRIVE_SPEED,
};

#[test]
fn direction_bytes_decode_one_to_one() {
    assert_eq!(decode_direction(0), Ok(Direction::Forward));
    assert_eq!(decode_direction(1), Ok(Direction::Left));
    assert_eq!(decode_direction(2), Ok(Direction::Right));
    assert_eq!(decode_direction(3), Ok(Direction::Backwards));
}

#[test]
fn direction_bytes_out_of_range_are_diagnosed() {
    assert_eq!(decode_direction(4), Err(Diagnostic::InvalidDirection { value: 4 }));
    assert_eq!(decode_direction(100), Err(Diagnostic::InvalidDirection { value: 100 }));
    assert_eq!(decode_direction(255), Err(Diagnostic::InvalidDirection { value: 255 }));
}

#[test]
fn led_index_bytes_decode_in_table_range_only() {
    for value in 0..=6u8 {
        assert_eq!(decode_led_index(value), Some(value));
    }
    assert_eq!(decode_led_index(7), None);
    assert_eq!(decode_led_index(255), None);
    assert_eq!(COLOR_COUNT, 7);
}

#[test]
fn arm_trigger_one_fires_everything_else_rests() {
    assert_eq!(decode_arm_trigger(1), ArmCommand::Fire);
    assert_eq!(decode_arm_trigger(0), ArmCommand::Rest);
    assert_eq!(decode_arm_trigger(2), ArmCommand::Rest);
    assert_eq!(decode_arm_trigger(255), ArmCommand::Rest);
}

#[test]
fn color_table_holds_the_seven_fixed_entries() {
    assert_eq!(color_lookup(0), Some(ColorInfo::Off));
    assert_eq!(
        color_lookup(1),
        Some(ColorInfo::Color { name: ColorName::Red, rgb: Rgb { r: 255, g: 0, b: 0 } })
    );
    assert_eq!(
        color_lookup(2),
        Some(ColorInfo::Color { name: ColorName::Orange, rgb: Rgb { r: 255, g: 165, b: 0 } })
    );
    assert_eq!(
        color_lookup(3),
        Some(ColorInfo::Color { name: ColorName::Yellow, rgb: Rgb { r: 255, g: 255, b: 0 } })
    );
    assert_eq!(
        color_lookup(4),
        Some(ColorInfo::Color { name: ColorName::Green, rgb: Rgb { r: 127, g: 255, b: 0 } })
    );
    assert_eq!(
        color_lookup(5),
        Some(ColorInfo::Color { name: ColorName::Blue, rgb: Rgb { r: 4, g: 213, b: 237 } })
    );
    assert_eq!(
        color_lookup(6),
        Some(ColorInfo::Color { name: ColorName::Indigo, rgb: Rgb { r: 75, g: 0, b: 130 } })
    );
}

#[test]
fn color_lookup_out_of_range_is_none() {
    assert_eq!(color_lookup(7), None);
    assert_eq!(color_lookup(255), None);
}

#[test]
fn color_labels() {
    assert_eq!(ColorName::Red.label(), "Red");
    assert_eq!(ColorName::Orange.label(), "Orange");
    assert_eq!(ColorName::Yellow.label(), "Yellow");
    assert_eq!(ColorName::Green.label(), "Green");
    assert_eq!(ColorName::Blue.label(), "Blue");
    assert_eq!(ColorName::Indigo.label(), "Indigo");
}

#[test]
fn drive_pulse_script_for_each_heading() {
    let cases = [
        (Direction::Forward, MotorDirection::Forward, MotorDirection::Forward),
        (Direction::Backwards, MotorDirection::Reverse, MotorDirection::Reverse),
        (Direction::Left, MotorDirection::Reverse, MotorDirection::Forward),
        (Direction::Right, MotorDirection::Forward, MotorDirection::Reverse),
    ];
    for (heading, left, right) in cases {
        let steps = direction_sequence(heading);
        assert_eq!(
            steps,
            vec![
                Step::Drive { motor: Motor::Left, speed: DRIVE_SPEED, direction: left },
                Step::Drive { motor: Motor::Right, speed: DRIVE_SPEED, direction: right },
                Step::Delay { ms: DRIVE_PULSE_MS },
                Step::Stop { motor: Motor::Left },
                Step::Stop { motor: Motor::Right },
            ]
        );
    }
    assert_eq!(DRIVE_SPEED, 255);
    assert_eq!(DRIVE_PULSE_MS, 250);
}

#[test]
fn arm_fire_script_holds_the_pause() {
    let steps = arm_sequence(ArmCommand::Fire);
    assert_eq!(
        steps,
        vec![
            Step::Servo { position: CATAPULT_READY_POSITION },
            Step::Delay { ms: ARM_PAUSE_MS },
            Step::Servo { position: CATAPULT_FIRE_POSITION },
        ]
    );
    assert_eq!(CATAPULT_READY_POSITION, 105);
    assert_eq!(ARM_PAUSE_MS, 100);
    assert_eq!(CATAPULT_FIRE_POSITION, 135);
}

#[test]
fn arm_rest_script_has_no_pause() {
    let steps = arm_sequence(ArmCommand::Rest);
    assert_eq!(steps, vec![Step::Servo { position: CATAPULT_REST_POSITION }]);
    assert_eq!(CATAPULT_REST_POSITION, 115);
    assert!(!steps.iter().any(|s| matches!(s, Step::Delay { .. })));
}

#[test]
fn led_scripts_stage_then_commit() {
    assert_eq!(
        led_sequence(5),
        vec![Step::SetAllLeds { color: Rgb { r: 4, g: 213, b: 237 } }, Step::CommitLeds]
    );
    assert_eq!(led_sequence(0), vec![Step::ClearAllLeds, Step::CommitLeds]);
    assert_eq!(led_sequence(7), vec![]);
    assert_eq!(led_sequence(9), vec![]);
}

#[test]
fn startup_script_clears_strip_and_rests_arm() {
    assert_eq!(
        startup_sequence(),
        vec![
            Step::ClearAllLeds,
            Step::CommitLeds,
            Step::Servo { position: CATAPULT_REST_POSITION },
        ]
    );
}

#[test]
fn stop_script_stops_both_motors() {
    assert_eq!(
        stop_motors_sequence(),
        vec![Step::Stop { motor: Motor::Left }, Step::Stop { motor: Motor::Right }]
    );
}
