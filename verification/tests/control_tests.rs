use robot_core::command::{Command, CommandName, CommandValue, DeliveryResult, delivery_status, parse_command_name};
use robot_core::control::{Actuation, ControlState, Event, Line, Phase, initial_state, step};

fn cmd(name: &str, value: CommandValue) -> Command {
    Command { name: name.to_string(), value }
}

fn running() -> ControlState {
    let (state, acts) = step(initial_state(), Event::InitSucceeded);
    assert!(acts.is_empty());
    state
}

#[test]
fn initialization_transitions() {
    let start = initial_state();
    assert_eq!(start.phase, Phase::Initializing);
    assert!(!start.turbo);

    let (up, acts) = step(start, Event::InitSucceeded);
    assert_eq!(up.phase, Phase::Running);
    assert!(!up.turbo);
    assert!(acts.is_empty());

    let (down, acts) = step(start, Event::InitFailed);
    assert_eq!(down.phase, Phase::Terminated);
    assert!(acts.is_empty());
}

#[test]
fn speed_turbo_speed_differs_by_turbo_offset() {
    let state = running();
    let (state, first) = step(state, Event::Received(cmd("speed", CommandValue::Int(50))));
    assert_eq!(first, vec![Actuation::Pulse { channel: 0, pulse: 1797 }]);

    let (state, none) = step(state, Event::Received(cmd("turbo", CommandValue::Bool(true))));
    assert!(none.is_empty());
    assert!(state.turbo);

    let (_, second) = step(state, Event::Received(cmd("speed", CommandValue::Int(50))));
    assert_eq!(second, vec![Actuation::Pulse { channel: 0, pulse: 1897 }]);
}

#[test]
fn direction_pushes_both_axles() {
    let state = running();
    let (_, acts) = step(state, Event::Received(cmd("direction", CommandValue::Int(80))));
    assert_eq!(
        acts,
        vec![
            Actuation::Pulse { channel: 1, pulse: 390 },
            Actuation::Pulse { channel: 2, pulse: 2104 },
        ]
    );
}

#[test]
fn calibrate_restores_neutral_after_steering() {
    let state = running();
    let (state, steered) = step(state, Event::Received(cmd("direction", CommandValue::Int(-73))));
    assert_eq!(steered.len(), 2);

    let (_, acts) = step(state, Event::Received(cmd("calibrate", CommandValue::Other)));
    assert_eq!(
        acts,
        vec![
            Actuation::Pulse { channel: 1, pulse: 728 },
            Actuation::Pulse { channel: 2, pulse: 1780 },
        ]
    );
}

#[test]
fn headlights_and_horn_set_their_lines() {
    let state = running();
    let (state, acts) = step(state, Event::Received(cmd("headlights", CommandValue::Bool(true))));
    assert_eq!(acts, vec![Actuation::Output { line: Line::Lights, level: true }]);

    let (_, acts) = step(state, Event::Received(cmd("horn", CommandValue::Bool(false))));
    assert_eq!(acts, vec![Actuation::Output { line: Line::Horn, level: false }]);
}

#[test]
fn malformed_command_actuates_nothing() {
    let state = running();

    let (after, acts) = step(state, Event::Received(cmd("speed", CommandValue::Other)));
    assert!(acts.is_empty());
    assert_eq!(after, state);

    let (after, acts) = step(state, Event::Received(cmd("speed", CommandValue::Bool(true))));
    assert!(acts.is_empty());
    assert_eq!(after, state);

    let (after, acts) = step(state, Event::Received(cmd("turbo", CommandValue::Int(1))));
    assert!(acts.is_empty());
    assert!(!after.turbo);

    let (after, acts) = step(state, Event::Received(cmd("warp", CommandValue::Int(9))));
    assert!(acts.is_empty());
    assert_eq!(after, state);
}

#[test]
fn channel_close_runs_safe_shutdown_exactly_once() {
    let state = running();
    let (state, _) = step(state, Event::Received(cmd("turbo", CommandValue::Bool(true))));
    let (state, _) = step(state, Event::Received(cmd("speed", CommandValue::Int(90))));

    let (state, acts) = step(state, Event::ChannelClosed);
    assert_eq!(state.phase, Phase::Draining);
    assert!(acts.is_empty());

    let (state, acts) = step(state, Event::SourceFinished);
    assert_eq!(state.phase, Phase::Terminated);
    assert_eq!(
        acts,
        vec![
            Actuation::Pulse { channel: 1, pulse: 728 },
            Actuation::Pulse { channel: 2, pulse: 1780 },
            Actuation::Pulse { channel: 0, pulse: 1450 },
            Actuation::Output { line: Line::Lights, level: false },
            Actuation::Output { line: Line::Horn, level: false },
        ]
    );

    let (state, acts) = step(state, Event::SourceFinished);
    assert_eq!(state.phase, Phase::Terminated);
    assert!(acts.is_empty());
    let (state, acts) = step(state, Event::Received(cmd("speed", CommandValue::Int(50))));
    assert_eq!(state.phase, Phase::Terminated);
    assert!(acts.is_empty());
}

#[test]
fn draining_ignores_commands() {
    let state = running();
    let (state, _) = step(state, Event::ChannelClosed);
    let (after, acts) = step(state, Event::Received(cmd("speed", CommandValue::Int(50))));
    assert!(acts.is_empty());
    assert_eq!(after.phase, Phase::Draining);
}

#[test]
fn command_vocabulary_is_exact() {
    assert_eq!(parse_command_name(&"speed".to_string()), CommandName::Speed);
    assert_eq!(parse_command_name(&"direction".to_string()), CommandName::Direction);
    assert_eq!(parse_command_name(&"headlights".to_string()), CommandName::Headlights);
    assert_eq!(parse_command_name(&"horn".to_string()), CommandName::Horn);
    assert_eq!(parse_command_name(&"turbo".to_string()), CommandName::Turbo);
    assert_eq!(parse_command_name(&"calibrate".to_string()), CommandName::Calibrate);
    assert_eq!(parse_command_name(&"Speed".to_string()), CommandName::Unknown);
    assert_eq!(parse_command_name(&"".to_string()), CommandName::Unknown);
}

#[test]
fn delivery_status_names_the_outcome() {
    assert_eq!(delivery_status(&DeliveryResult::Delivered), "command_received_and_forwarded");
    assert_eq!(delivery_status(&DeliveryResult::ChannelClosed), "error_forwarding_command");
}
