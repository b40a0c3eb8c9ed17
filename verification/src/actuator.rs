//! The actuator model: the discrete operations the driver layer can perform,
//! and the effect of a list of such operations on the physical outputs.

use vstd::prelude::*;

verus! {

/// One of the two drive motors, in tank-drive arrangement.
#[derive(Structural, Debug, Copy, Clone, PartialEq, Eq)]
pub enum Motor {
    Left,
    Right,
}

/// Rotation sense of a drive motor.
#[derive(Structural, Debug, Copy, Clone, PartialEq, Eq)]
pub enum MotorDirection {
    Forward,
    Reverse,
}

/// An RGB triple for the addressable LED strip.
#[derive(Structural, Debug, Copy, Clone, PartialEq, Eq)]
pub struct Rgb {
    pub r: u8,
    pub g: u8,
    pub b: u8,
}

/// One discrete actuator operation. A command is turned into an ordered list
/// of these; the driver layer performs them in order, to completion, before
/// the next command is dispatched.
#[derive(Structural, Debug, Copy, Clone, PartialEq, Eq)]
pub enum Step {
    /// Move the catapult servo to an absolute position (device angular units).
    Servo { position: u16 },
    /// Drive one motor at the given speed in the given direction.
    Drive { motor: Motor, speed: u8, direction: MotorDirection },
    /// Stop one motor.
    Stop { motor: Motor },
    /// Stage a color on every LED of the strip (takes effect on commit).
    SetAllLeds { color: Rgb },
    /// Stage "off" on every LED of the strip (takes effect on commit).
    ClearAllLeds,
    /// Flush the staged LED state to the hardware.
    CommitLeds,
    /// Block for the given number of milliseconds before the next step.
    Delay { ms: u16 },
}

/// Instantaneous state of one drive motor.
#[derive(Structural, Debug, Copy, Clone, PartialEq, Eq)]
pub enum MotorState {
    Stopped,
    Running { speed: u8, direction: MotorDirection },
}

/// State of the LED strip as a whole (all LEDs carry the same value).
#[derive(Structural, Debug, Copy, Clone, PartialEq, Eq)]
pub enum LedState {
    Off,
    Lit { color: Rgb },
}

/// The modelled physical outputs: catapult servo position, both drive
/// motors, and the LED strip. The strip is double-buffered on this hardware
/// class: a color assignment is staged and only shown after a commit step.
#[derive(Structural, Debug, Copy, Clone, PartialEq, Eq)]
pub struct ActuatorState {
    pub servo: u16,
    pub left_motor: MotorState,
    pub right_motor: MotorState,
    /// LED state staged by the last assignment, shown on the next commit.
    pub staged_leds: LedState,
    /// LED state currently shown on the hardware.
    pub shown_leds: LedState,
}

/// The effect of one step on the outputs. A delay changes no output.
pub open spec fn apply_step(s: ActuatorState, step: Step) -> ActuatorState {
    match step {
        Step::Servo { position } => ActuatorState { servo: position, ..s },
        Step::Drive { motor, speed, direction } => {
            let running = MotorState::Running { speed, direction };
            match motor {
                Motor::Left => ActuatorState { left_motor: running, ..s },
                Motor::Right => ActuatorState { right_motor: running, ..s },
            }
        },
        Step::Stop { motor } => match motor {
            Motor::Left => ActuatorState { left_motor: MotorState::Stopped, ..s },
            Motor::Right => ActuatorState { right_motor: MotorState::Stopped, ..s },
        },
        Step::SetAllLeds { color } => ActuatorState { staged_leds: (LedState::Lit { color }), ..s },
        Step::ClearAllLeds => ActuatorState { staged_leds: LedState::Off, ..s },
        Step::CommitLeds => ActuatorState { shown_leds: s.staged_leds, ..s },
        Step::Delay { .. } => s,
    }
}

/// The effect of a whole script, first step first.
pub open spec fn apply_steps(s: ActuatorState, steps: Seq<Step>) -> ActuatorState
    decreases steps.len(),
{
    if steps.len() == 0 {
        s
    } else {
        apply_step(apply_steps(s, steps.drop_last()), steps.last())
    }
}

/// The time one step blocks for, in milliseconds.
pub open spec fn step_delay_ms(step: Step) -> int {
    match step {
        Step::Delay { ms } => ms as int,
        _ => 0,
    }
}

/// Total time a script blocks for, in milliseconds: the sum of its delays.
pub open spec fn script_delay_ms(steps: Seq<Step>) -> int
    decreases steps.len(),
{
    if steps.len() == 0 {
        0
    } else {
        script_delay_ms(steps.drop_last()) + step_delay_ms(steps.last())
    }
}

/// Appending one step applies it after the rest, and adds its delay.
pub proof fn lemma_apply_steps_push(s: ActuatorState, steps: Seq<Step>, step: Step)
    ensures
        apply_steps(s, steps.push(step)) == apply_step(apply_steps(s, steps), step),
        script_delay_ms(steps.push(step)) == script_delay_ms(steps) + step_delay_ms(step),
{
    assert(steps.push(step).drop_last() =~= steps);
}

/// Evaluate a one-step script.
pub proof fn lemma_script_one(s: ActuatorState, a: Step)
    ensures
        apply_steps(s, seq![a]) == apply_step(s, a),
        script_delay_ms(seq![a]) == step_delay_ms(a),
{
    assert(seq![a] =~= Seq::<Step>::empty().push(a));
    lemma_apply_steps_push(s, Seq::empty(), a);
}

/// Evaluate a two-step script.
pub proof fn lemma_script_two(s: ActuatorState, a: Step, b: Step)
    ensures
        apply_steps(s, seq![a, b]) == apply_step(apply_step(s, a), b),
        script_delay_ms(seq![a, b]) == step_delay_ms(a) + step_delay_ms(b),
{
    assert(seq![a, b] =~= seq![a].push(b));
    lemma_apply_steps_push(s, seq![a], b);
    lemma_script_one(s, a);
}

/// Evaluate a three-step script.
pub proof fn lemma_script_three(s: ActuatorState, a: Step, b: Step, c: Step)
    ensures
        apply_steps(s, seq![a, b, c]) == apply_step(apply_step(apply_step(s, a), b), c),
        script_delay_ms(seq![a, b, c]) == step_delay_ms(a) + step_delay_ms(b) + step_delay_ms(c),
{
    assert(seq![a, b, c] =~= seq![a, b].push(c));
    lemma_apply_steps_push(s, seq![a, b], c);
    lemma_script_two(s, a, b);
}

/// Evaluate a five-step script.
pub proof fn lemma_script_five(s: ActuatorState, a: Step, b: Step, c: Step, d: Step, e: Step)
    ensures
        apply_steps(s, seq![a, b, c, d, e]) == apply_step(
            apply_step(apply_step(apply_step(apply_step(s, a), b), c), d),
            e,
        ),
        script_delay_ms(seq![a, b, c, d, e]) == step_delay_ms(a) + step_delay_ms(b)
            + step_delay_ms(c) + step_delay_ms(d) + step_delay_ms(e),
{
    assert(seq![a, b, c, d] =~= seq![a, b, c].push(d));
    lemma_apply_steps_push(s, seq![a, b, c], d);
    lemma_script_three(s, a, b, c);
    assert(seq![a, b, c, d, e] =~= seq![a, b, c, d].push(e));
    lemma_apply_steps_push(s, seq![a, b, c, d], e);
}

impl ActuatorState {
    /// The state at power-on: servo wherever it rests, motors stopped, strip
    /// dark, nothing staged.
    pub open spec fn initial(servo: u16) -> ActuatorState {
        ActuatorState {
            servo,
            left_motor: MotorState::Stopped,
            right_motor: MotorState::Stopped,
            staged_leds: LedState::Off,
            shown_leds: LedState::Off,
        }
    }

    /// Build the power-on state.
    pub fn new(servo: u16) -> (r: ActuatorState)
        ensures
            r == ActuatorState::initial(servo),
    {
        ActuatorState {
            servo,
            left_motor: MotorState::Stopped,
            right_motor: MotorState::Stopped,
            staged_leds: LedState::Off,
            shown_leds: LedState::Off,
        }
    }

    /// Perform one step on the model.
    pub fn apply(&mut self, step: Step)
        ensures
            *final(self) == apply_step(*old(self), step),
    {
        match step {
            Step::Servo { position } => {
                self.servo = position;
            },
            Step::Drive { motor, speed, direction } => {
                let running = MotorState::Running { speed, direction };
                match motor {
                    Motor::Left => {
                        self.left_motor = running;
                    },
                    Motor::Right => {
                        self.right_motor = running;
                    },
                }
            },
            Step::Stop { motor } => match motor {
                Motor::Left => {
                    self.left_motor = MotorState::Stopped;
                },
                Motor::Right => {
                    self.right_motor = MotorState::Stopped;
                },
            },
            Step::SetAllLeds { color } => {
                self.staged_leds = LedState::Lit { color };
            },
            Step::ClearAllLeds => {
                self.staged_leds = LedState::Off;
            },
            Step::CommitLeds => {
                self.shown_leds = self.staged_leds;
            },
            Step::Delay { .. } => {},
        }
    }

    /// Perform a whole script on the model, first step first.
    pub fn apply_all(&mut self, steps: &Vec<Step>)
        ensures
            *final(self) == apply_steps(*old(self), steps@),
    {
        let ghost start = *self;
        let mut i: usize = 0;
        while i < steps.len()
            invariant
                i <= steps.len(),
                *self == apply_steps(start, steps@.take(i as int)),
            decreases steps.len() - i,
        {
            proof {
                lemma_apply_steps_push(start, steps@.take(i as int), steps@[i as int]);
                assert(steps@.take(i as int).push(steps@[i as int]) =~= steps@.take(
                    i as int + 1,
                ));
            }
            self.apply(steps[i]);
            i = i + 1;
        }
        proof {
            assert(steps@.take(steps@.len() as int) =~= steps@);
        }
    }
}

} // verus!
