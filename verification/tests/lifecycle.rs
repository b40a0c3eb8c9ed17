use catapult::actuator::{ActuatorState, LedState, Motor, MotorDirection, MotorState, Rgb, Step};
use catapult::decode::Diagnostic;
use catapult::session::{Controller, Event, Phase};

fn connected_controller() -> Controller {
    let mut controller = Controller::new();
    assert!(controller.try_accept(1));
    controller
}

#[test]
fn forward_pulse_scenario() {
    let mut controller = connected_controller();
    let outcome = controller.handle_event(Event::DirectionWrite { value: 0 });
    assert!(outcome.diagnostic.is_none());

    // While the pulse lasts, both motors run forward at full scale.
    let mut mid = ActuatorState::new(115);
    mid.apply(outcome.steps[0]);
    mid.apply(outcome.steps[1]);
    let full_forward = MotorState::Running { speed: 255, direction: MotorDirection::Forward };
    assert_eq!(mid.left_motor, full_forward);
    assert_eq!(mid.right_motor, full_forward);
    assert_eq!(outcome.steps[2], Step::Delay { ms: 250 });

    // After the whole script, both motors stand stopped.
    let mut state = ActuatorState::new(115);
    state.apply_all(&outcome.steps);
    assert_eq!(state.left_motor, MotorState::Stopped);
    assert_eq!(state.right_motor, MotorState::Stopped);
    assert_eq!(state.servo, 115);
}

#[test]
fn invalid_direction_changes_no_motor() {
    let mut controller = connected_controller();
    let before = ActuatorState::new(115);
    for value in [4u8, 9, 128, 255] {
        let outcome = controller.handle_event(Event::DirectionWrite { value });
        assert_eq!(outcome.diagnostic, Some(Diagnostic::InvalidDirection { value }));
        let mut state = before;
        state.apply_all(&outcome.steps);
        assert_eq!(state, before);
    }
    assert_eq!(controller.phase, Phase::Connected);
}

#[test]
fn led_write_scenario() {
    let mut controller = connected_controller();
    let outcome = controller.handle_event(Event::LedWrite { value: 5 });
    let mut state = ActuatorState::new(115);
    state.apply_all(&outcome.steps);
    assert_eq!(state.shown_leds, LedState::Lit { color: Rgb { r: 4, g: 213, b: 237 } });
    assert_eq!(controller.led_value(), 5);
}

#[test]
fn led_write_off_darkens_strip() {
    let mut controller = connected_controller();
    let mut state = ActuatorState::new(115);
    let lit = controller.handle_event(Event::LedWrite { value: 1 });
    state.apply_all(&lit.steps);
    assert_eq!(state.shown_leds, LedState::Lit { color: Rgb { r: 255, g: 0, b: 0 } });
    let off = controller.handle_event(Event::LedWrite { value: 0 });
    state.apply_all(&off.steps);
    assert_eq!(state.shown_leds, LedState::Off);
    assert_eq!(controller.led_value(), 0);
}

#[test]
fn led_write_out_of_range_scenario() {
    let mut controller = connected_controller();
    let lit = controller.handle_event(Event::LedWrite { value: 3 });
    let mut state = ActuatorState::new(115);
    state.apply_all(&lit.steps);
    let before = state;

    let outcome = controller.handle_event(Event::LedWrite { value: 9 });
    assert!(outcome.diagnostic.is_none());
    state.apply_all(&outcome.steps);
    assert_eq!(state, before);
    assert_eq!(controller.led_value(), 3);
}

#[test]
fn arm_fire_scenario() {
    let mut controller = connected_controller();
    let outcome = controller.handle_event(Event::ArmWrite { value: 1 });

    // From rest, the arm passes through ready, pauses, then snaps to fire.
    let mut state = ActuatorState::new(115);
    assert_eq!(state.servo, 115);
    state.apply(outcome.steps[0]);
    assert_eq!(state.servo, 105);
    assert_eq!(outcome.steps[1], Step::Delay { ms: 100 });
    state.apply(outcome.steps[1]);
    assert_eq!(state.servo, 105);
    state.apply(outcome.steps[2]);
    assert_eq!(state.servo, 135);
    assert_eq!(outcome.steps.len(), 3);
}

#[test]
fn arm_rest_scenario() {
    let mut controller = connected_controller();
    let outcome = controller.handle_event(Event::ArmWrite { value: 0 });
    let mut state = ActuatorState::new(135);
    state.apply_all(&outcome.steps);
    assert_eq!(state.servo, 115);
    assert!(!outcome.steps.iter().any(|s| matches!(s, Step::Delay { .. })));
}

#[test]
fn subscription_toggle_is_recorded_and_logged() {
    let mut controller = connected_controller();
    assert!(!controller.notifications_enabled());
    let outcome = controller.handle_event(Event::SubscriptionWrite { enabled: true });
    assert!(outcome.steps.is_empty());
    assert_eq!(outcome.diagnostic, Some(Diagnostic::SubscriptionChange { enabled: true }));
    assert!(controller.notifications_enabled());
    let outcome = controller.handle_event(Event::SubscriptionWrite { enabled: false });
    assert!(outcome.steps.is_empty());
    assert!(!controller.notifications_enabled());
}

#[test]
fn disconnect_stops_motors_before_advertising() {
    let mut controller = connected_controller();
    let outcome = controller.handle_event(Event::DirectionWrite { value: 2 });

    // Leave the motors running, as a connection dropped mid-pulse would.
    let mut state = ActuatorState::new(115);
    state.apply(outcome.steps[0]);
    state.apply(outcome.steps[1]);
    assert!(matches!(state.left_motor, MotorState::Running { .. }));
    assert!(matches!(state.right_motor, MotorState::Running { .. }));

    let stop = controller.end_session();
    state.apply_all(&stop);
    assert_eq!(state.left_motor, MotorState::Stopped);
    assert_eq!(state.right_motor, MotorState::Stopped);
    assert_eq!(controller.phase, Phase::Advertising);
    assert_eq!(controller.connection, None);
}

#[test]
fn at_most_one_connection() {
    let mut controller = Controller::new();
    assert!(controller.try_accept(1));
    assert_eq!(controller.connection, Some(1));

    // A second attempt while connected is rejected and changes nothing.
    assert!(!controller.try_accept(2));
    assert_eq!(controller.phase, Phase::Connected);
    assert_eq!(controller.connection, Some(1));

    // After the session ends the next remote is accepted.
    controller.end_session();
    assert!(controller.try_accept(2));
    assert_eq!(controller.connection, Some(2));
}

#[test]
fn subscription_flag_resets_per_connection() {
    let mut controller = connected_controller();
    controller.handle_event(Event::SubscriptionWrite { enabled: true });
    assert!(controller.notifications_enabled());
    controller.end_session();
    assert!(controller.try_accept(2));
    assert!(!controller.notifications_enabled());
}

#[test]
fn led_value_survives_reconnection() {
    let mut controller = connected_controller();
    controller.handle_event(Event::LedWrite { value: 6 });
    controller.end_session();
    assert!(controller.try_accept(2));
    assert_eq!(controller.led_value(), 6);
}
