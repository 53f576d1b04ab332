//! The command model carried from the network boundary to the control
//! loop: a name drawn from a fixed vocabulary and a dynamically typed
//! scalar value, interpreted per command. The boundary hands the library
//! plain values; a scalar it cannot read as an integer or a boolean
//! arrives as `Other` and is rejected by the dispatcher, never acted on.

use vstd::prelude::*;

verus! {

/// The scalar payload of a command, already reduced to plain values at
/// the boundary: an integer, a boolean, or anything else (`Other`), which
/// no command accepts.
#[derive(Debug, Clone, Copy, PartialEq, Eq, Structural)]
pub enum CommandValue {
    Int(i64),
    Bool(bool),
    Other,
}

/// One command as it travels over the command channel: immutable once
/// built, moved from the producer to the control loop exactly once.
#[derive(Debug, Clone)]
pub struct Command {
    pub name: String,
    pub value: CommandValue,
}

/// The fixed command vocabulary; every name outside it is `Unknown` and
/// is dropped by the dispatcher without stopping the loop.
#[derive(Debug, Clone, Copy, PartialEq, Eq, Structural)]
pub enum CommandName {
    Speed,
    Direction,
    Headlights,
    Horn,
    Turbo,
    Calibrate,
    Unknown,
}

/// The vocabulary as a function of the raw name.
pub open spec fn spec_command_name(name: Seq<char>) -> CommandName {
    if name == "speed"@ {
        CommandName::Speed
    } else if name == "direction"@ {
        CommandName::Direction
    } else if name == "headlights"@ {
        CommandName::Headlights
    } else if name == "horn"@ {
        CommandName::Horn
    } else if name == "turbo"@ {
        CommandName::Turbo
    } else if name == "calibrate"@ {
        CommandName::Calibrate
    } else {
        CommandName::Unknown
    }
}

/// Resolves a raw command name against the vocabulary.
pub fn parse_command_name(name: &String) -> (c: CommandName)
    ensures
        c == spec_command_name(name@),
{
    if *name == "speed".to_owned() {
        CommandName::Speed
    } else if *name == "direction".to_owned() {
        CommandName::Direction
    } else if *name == "headlights".to_owned() {
        CommandName::Headlights
    } else if *name == "horn".to_owned() {
        CommandName::Horn
    } else if *name == "turbo".to_owned() {
        CommandName::Turbo
    } else if *name == "calibrate".to_owned() {
        CommandName::Calibrate
    } else {
        CommandName::Unknown
    }
}

/// What became of one command handed to the channel: the producer must
/// surface `ChannelClosed` to its caller instead of swallowing it.
#[derive(Debug, Clone, Copy, PartialEq, Eq, Structural)]
pub enum DeliveryResult {
    Delivered,
    ChannelClosed,
}

/// The status tag the network boundary echoes back for one submission.
pub fn delivery_status(result: &DeliveryResult) -> (s: String)
    ensures
        result is Delivered ==> s@ == "command_received_and_forwarded"@,
        result is ChannelClosed ==> s@ == "error_forwarding_command"@,
{
    match result {
        DeliveryResult::Delivered => "command_received_and_forwarded".to_owned(),
        DeliveryResult::ChannelClosed => "error_forwarding_command".to_owned(),
    }
}

/// Why the actuator gateway could not come up. Either case is fatal:
/// there is no vehicle without motor control.
#[derive(Debug, Clone, Copy, PartialEq, Eq, Structural)]
pub enum InitError {
    DeviceUnavailable,
    ConfigFailed,
}

/// Why one best-effort actuation failed; the loop logs it and goes on.
#[derive(Debug, Clone, Copy, PartialEq, Eq, Structural)]
pub enum ActuationError {
    LineUnavailable,
    WriteFailed,
}

} // verus!
