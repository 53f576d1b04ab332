//! Verified core of a single-vehicle remote-control bridge.
//!
//! The library holds the command-to-actuation pipeline: the pure pulse
//! mapper that turns signed percentage values into PWM pulse widths, the
//! command model carried from the network boundary to the control loop,
//! and the control loop's state machine, a pure step function from state
//! and event to next state and actuation plan. The HTTP listener, the
//! command channel and the hardware drivers live outside the library and
//! feed it plain values.

pub mod command;
pub mod control;
pub mod pulse;
