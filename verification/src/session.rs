//! The connection state machine and the control-loop dispatch: advertise,
//! accept at most one connection, service its events, and on every session
//! end stop the drive motors before advertising again.
//!
//! The transport layer runs the loop: it performs the [`Step`] scripts this
//! module hands back and feeds in each inbound write or subscription change
//! as an [`Event`]. Notification pushing for the LED channel is deliberately
//! left to the transport: the core records the subscription flag and keeps
//! the current LED value readable, and never pushes on its own.

use vstd::prelude::*;
use crate::actuator::Step;
use crate::colors::COLOR_COUNT;
use crate::decode::{arm_command_of_byte, direction_of_byte, Diagnostic};
use crate::sequence::{arm_steps, direction_steps, led_steps};

verus! {

/// The two states of the control loop: broadcasting discoverability while
/// unconnected, or servicing the single active session.
#[derive(Structural, Debug, Copy, Clone, PartialEq, Eq)]
pub enum Phase {
    Advertising,
    Connected,
}

/// One event delivered by the active session: a write on one of the three
/// command channels, or a change of the LED notification subscription.
#[derive(Structural, Debug, Copy, Clone, PartialEq, Eq)]
pub enum Event {
    /// A byte written on the drive direction channel.
    DirectionWrite { value: u8 },
    /// A byte written on the LED channel.
    LedWrite { value: u8 },
    /// A byte written on the catapult arm channel.
    ArmWrite { value: u8 },
    /// The remote toggled its subscription to LED value pushes.
    SubscriptionWrite { enabled: bool },
}

/// What dispatching one event asks of the caller: a script to perform on
/// the actuators, and at most one diagnostic to report.
pub struct Outcome {
    pub steps: Vec<Step>,
    pub diagnostic: Option<Diagnostic>,
}

/// The control loop's own state: its phase, the handle of the single active
/// connection, the current LED channel value (readable by the remote), and
/// the per-connection LED notification subscription flag.
#[derive(Structural, Debug, Copy, Clone, PartialEq, Eq)]
pub struct Controller {
    pub phase: Phase,
    pub connection: Option<u16>,
    pub led_value: u8,
    pub notifications_enabled: bool,
}

/// A controller is well formed when it holds a connection handle exactly
/// while it is connected.
pub open spec fn controller_inv(c: Controller) -> bool {
    c.phase is Connected <==> c.connection is Some
}

/// The script an event gives rise to. It depends on the event alone:
/// a valid direction byte gives one drive pulse, an LED byte inside the
/// color table gives one staged-and-committed strip update, an arm byte
/// gives the fire or rest motion, and everything else gives no step at all.
pub open spec fn event_steps(e: Event) -> Seq<Step> {
    match e {
        Event::DirectionWrite { value } => if value <= 3 {
            direction_steps(direction_of_byte(value))
        } else {
            Seq::empty()
        },
        Event::LedWrite { value } => led_steps(value),
        Event::ArmWrite { value } => arm_steps(arm_command_of_byte(value)),
        Event::SubscriptionWrite { .. } => Seq::empty(),
    }
}

/// The diagnostic an event gives rise to, if any.
pub open spec fn event_diagnostic(e: Event) -> Option<Diagnostic> {
    match e {
        Event::DirectionWrite { value } => if value <= 3 {
            None
        } else {
            Some(Diagnostic::InvalidDirection { value })
        },
        Event::SubscriptionWrite { enabled } => Some(Diagnostic::SubscriptionChange { enabled }),
        _ => None,
    }
}

/// The controller state after one event. Only an accepted LED write changes
/// the stored LED value, and only a subscription write changes the
/// subscription flag; no event changes the phase or the connection.
pub open spec fn event_transition(c: Controller, e: Event) -> Controller {
    match e {
        Event::LedWrite { value } => if value < COLOR_COUNT {
            Controller { led_value: value, ..c }
        } else {
            c
        },
        Event::SubscriptionWrite { enabled } => Controller { notifications_enabled: enabled, ..c },
        _ => c,
    }
}

impl Controller {
    /// The state at power-on: advertising, no connection, LED value zero,
    /// no subscription.
    pub fn new() -> (r: Controller)
        ensures
            r.phase is Advertising,
            r.connection is None,
            r.led_value == 0,
            !r.notifications_enabled,
            controller_inv(r),
    {
        Controller {
            phase: Phase::Advertising,
            connection: None,
            led_value: 0,
            notifications_enabled: false,
        }
    }

    /// Offer a connection. It is accepted exactly while advertising; a
    /// second connection attempt while one is active is rejected and
    /// changes nothing. Accepting starts the session with a fresh
    /// subscription flag and leaves the LED value as it was.
    pub fn try_accept(&mut self, handle: u16) -> (accepted: bool)
        requires
            controller_inv(*old(self)),
        ensures
            accepted <==> old(self).phase is Advertising,
            accepted ==> *final(self) == (Controller {
                phase: Phase::Connected,
                connection: Some(handle),
                led_value: old(self).led_value,
                notifications_enabled: false,
            }),
            !accepted ==> *final(self) == *old(self),
            controller_inv(*final(self)),
    {
        match self.phase {
            Phase::Advertising => {
                self.phase = Phase::Connected;
                self.connection = Some(handle);
                self.notifications_enabled = false;
                true
            },
            Phase::Connected => false,
        }
    }

    /// Dispatch one event of the active session: decode it, hand back the
    /// script it gives rise to and the diagnostic it raises, and update the
    /// stored LED value or subscription flag. The connection itself is
    /// never affected, whatever the event holds.
    pub fn handle_event(&mut self, event: Event) -> (r: Outcome)
        requires
            old(self).phase is Connected,
            controller_inv(*old(self)),
        ensures
            r.steps@ == event_steps(event),
            r.diagnostic == event_diagnostic(event),
            *final(self) == event_transition(*old(self), event),
            final(self).phase is Connected,
            controller_inv(*final(self)),
    {
        match event {
            Event::DirectionWrite { value } => match crate::decode::decode_direction(value) {
                Ok(direction) => Outcome {
                    steps: crate::sequence::direction_sequence(direction),
                    diagnostic: None,
                },
                Err(diagnostic) => Outcome { steps: Vec::new(), diagnostic: Some(diagnostic) },
            },
            Event::LedWrite { value } => {
                let steps = crate::sequence::led_sequence(value);
                if value < COLOR_COUNT {
                    self.led_value = value;
                }
                Outcome { steps, diagnostic: None }
            },
            Event::ArmWrite { value } => {
                let command = crate::decode::decode_arm_trigger(value);
                Outcome { steps: crate::sequence::arm_sequence(command), diagnostic: None }
            },
            Event::SubscriptionWrite { enabled } => {
                self.notifications_enabled = enabled;
                Outcome {
                    steps: Vec::new(),
                    diagnostic: Some(Diagnostic::SubscriptionChange { enabled }),
                }
            },
        }
    }

    /// End the session, however it ended, and return to advertising. The
    /// script handed back stops both drive motors; the caller performs it
    /// before the next advertising cycle begins, so a dropped connection
    /// never leaves the robot driving.
    pub fn end_session(&mut self) -> (r: Vec<Step>)
        ensures
            r@ == crate::sequence::stop_motors_steps(),
            *final(self) == (Controller {
                phase: Phase::Advertising,
                connection: None,
                led_value: old(self).led_value,
                notifications_enabled: false,
            }),
            controller_inv(*final(self)),
    {
        self.phase = Phase::Advertising;
        self.connection = None;
        self.notifications_enabled = false;
        crate::sequence::stop_motors_sequence()
    }

    /// The current LED channel value, as served to a read from the remote.
    pub fn led_value(&self) -> (r: u8)
        ensures
            r == self.led_value,
    {
        self.led_value
    }

    /// Whether the remote is subscribed to LED value pushes.
    pub fn notifications_enabled(&self) -> (r: bool)
        ensures
            r == self.notifications_enabled,
    {
        self.notifications_enabled
    }
}

} // verus!
