//! Control logic for a small wheeled robot with a spring-loaded catapult arm,
//! an addressable LED strip and two DC drive motors, operated over a
//! short-range wireless link.
//!
//! The crate holds the command decoder, the fixed color table, the actuation
//! sequencer and the connection state machine. Physical outputs are modelled
//! by [`actuator::Step`] scripts: each decoded command becomes a bounded,
//! time-boxed list of actuator operations that a driver layer performs in
//! order. The effect of a script on the outputs is given by
//! [`actuator::ActuatorState`], so that the safety and behaviour of every
//! command path is stated and proved here, independent of the hardware.

pub mod actuator;
pub mod colors;
pub mod decode;
pub mod sequence;
pub mod session;
pub mod laws;
