//! The control loop as a pure state machine. The loop's driver performs
//! the outside work — blocking on the command channel, joining the
//! producer, writing to the hardware — and feeds each outcome back here
//! as an event; `step` decides the next state and the exact actuation
//! plan, so every decision the loop ever takes is verified.

use vstd::prelude::*;

verus! {

use crate::command::{Command, CommandName, CommandValue, spec_command_name, parse_command_name};
use crate::pulse::{
    direction_to_pulse, spec_back_pulse, spec_front_pulse, spec_speed_to_pulse, speed_to_pulse,
};

/// PWM channel that drives the motor.
pub const MOTOR_CHANNEL: u8 = 0;

/// PWM channel that steers the front axle.
pub const FRONT_STEERING_CHANNEL: u8 = 1;

/// PWM channel that steers the back axle.
pub const BACK_STEERING_CHANNEL: u8 = 2;

/// Where the loop stands in its life cycle.
#[derive(Debug, Clone, Copy, PartialEq, Eq, Structural)]
pub enum Phase {
    Initializing,
    Running,
    Draining,
    Terminated,
}

/// The whole loop-local state: the phase and the session turbo flag.
#[derive(Debug, Clone, Copy, PartialEq, Eq, Structural)]
pub struct ControlState {
    pub phase: Phase,
    pub turbo: bool,
}

/// One named digital output line.
#[derive(Debug, Clone, Copy, PartialEq, Eq, Structural)]
pub enum Line {
    Horn,
    Lights,
}

/// One hardware write the loop's driver must perform, in order.
#[derive(Debug, Clone, Copy, PartialEq, Eq, Structural)]
pub enum Actuation {
    Pulse { channel: u8, pulse: u16 },
    Output { line: Line, level: bool },
}

/// What the outside world reports to the loop: the gateway came up or
/// not, a command arrived, the channel closed, or the producer finished.
#[derive(Debug, Clone)]
pub enum Event {
    InitSucceeded,
    InitFailed,
    Received(Command),
    ChannelClosed,
    SourceFinished,
}

/// The state the loop starts from, before the gateway is acquired.
pub fn initial_state() -> (s: ControlState)
    ensures
        s.phase == Phase::Initializing,
        !s.turbo,
{
    ControlState { phase: Phase::Initializing, turbo: false }
}

/// The actuation plan for one well-formed command in the running phase,
/// and the state it leaves behind.
pub open spec fn spec_dispatch(state: ControlState, cmd: Command) -> (ControlState, Seq<
    Actuation,
>) {
    match spec_command_name(cmd.name@) {
        CommandName::Speed => match cmd.value {
            CommandValue::Int(s) => (
                state,
                seq![
                    Actuation::Pulse {
                        channel: MOTOR_CHANNEL,
                        pulse: spec_speed_to_pulse(s as int, state.turbo) as u16,
                    },
                ],
            ),
            _ => (state, Seq::empty()),
        },
        CommandName::Direction => match cmd.value {
            CommandValue::Int(d) => (
                state,
                seq![
                    Actuation::Pulse {
                        channel: FRONT_STEERING_CHANNEL,
                        pulse: spec_front_pulse(d as int) as u16,
                    },
                    Actuation::Pulse {
                        channel: BACK_STEERING_CHANNEL,
                        pulse: spec_back_pulse(d as int) as u16,
                    },
                ],
            ),
            _ => (state, Seq::empty()),
        },
        CommandName::Headlights => match cmd.value {
            CommandValue::Bool(level) => (
                state,
                seq![Actuation::Output { line: Line::Lights, level }],
            ),
            _ => (state, Seq::empty()),
        },
        CommandName::Horn => match cmd.value {
            CommandValue::Bool(level) => (
                state,
                seq![Actuation::Output { line: Line::Horn, level }],
            ),
            _ => (state, Seq::empty()),
        },
        CommandName::Turbo => match cmd.value {
            CommandValue::Bool(level) => (ControlState { turbo: level, ..state }, Seq::empty()),
            _ => (state, Seq::empty()),
        },
        CommandName::Calibrate => (state, spec_calibration_actions()),
        CommandName::Unknown => (state, Seq::empty()),
    }
}

/// The two steering writes that return both axles to dead center.
pub open spec fn spec_calibration_actions() -> Seq<Actuation> {
    seq![
        Actuation::Pulse {
            channel: FRONT_STEERING_CHANNEL,
            pulse: spec_front_pulse(0) as u16,
        },
        Actuation::Pulse { channel: BACK_STEERING_CHANNEL, pulse: spec_back_pulse(0) as u16 },
    ]
}

/// The unconditional safe-state writes issued on the single transition
/// into `Terminated`: steering to dead center, motor to neutral with
/// turbo off, both digital outputs low.
pub open spec fn spec_shutdown_actions() -> Seq<Actuation> {
    spec_calibration_actions() + seq![
        Actuation::Pulse {
            channel: MOTOR_CHANNEL,
            pulse: spec_speed_to_pulse(0, false) as u16,
        },
        Actuation::Output { line: Line::Lights, level: false },
        Actuation::Output { line: Line::Horn, level: false },
    ]
}

/// The transition relation of the loop, as a function: next state and
/// the actuation plan for one event. Events that a phase does not expect
/// change nothing and actuate nothing.
pub open spec fn spec_step(state: ControlState, event: Event) -> (ControlState, Seq<Actuation>) {
    match state.phase {
        Phase::Initializing => match event {
            Event::InitSucceeded => (ControlState { phase: Phase::Running, ..state }, Seq::empty()),
            Event::InitFailed => (ControlState { phase: Phase::Terminated, ..state }, Seq::empty()),
            _ => (state, Seq::empty()),
        },
        Phase::Running => match event {
            Event::Received(cmd) => spec_dispatch(state, cmd),
            Event::ChannelClosed => (ControlState { phase: Phase::Draining, ..state }, Seq::empty()),
            _ => (state, Seq::empty()),
        },
        Phase::Draining => match event {
            Event::SourceFinished => (
                ControlState { phase: Phase::Terminated, ..state },
                spec_shutdown_actions(),
            ),
            _ => (state, Seq::empty()),
        },
        Phase::Terminated => (state, Seq::empty()),
    }
}

fn calibration_actions() -> (acts: Vec<Actuation>)
    ensures
        acts@ == spec_calibration_actions(),
{
    let (front, back) = direction_to_pulse(0);
    let mut acts: Vec<Actuation> = Vec::new();
    acts.push(Actuation::Pulse { channel: FRONT_STEERING_CHANNEL, pulse: front });
    acts.push(Actuation::Pulse { channel: BACK_STEERING_CHANNEL, pulse: back });
    proof {
        assert(acts@ =~= spec_calibration_actions());
    }
    acts
}

fn shutdown_actions() -> (acts: Vec<Actuation>)
    ensures
        acts@ == spec_shutdown_actions(),
{
    let mut acts = calibration_actions();
    let motor = speed_to_pulse(0, false);
    acts.push(Actuation::Pulse { channel: MOTOR_CHANNEL, pulse: motor });
    acts.push(Actuation::Output { line: Line::Lights, level: false });
    acts.push(Actuation::Output { line: Line::Horn, level: false });
    proof {
        assert(acts@ =~= spec_shutdown_actions());
    }
    acts
}

fn dispatch(state: ControlState, cmd: Command) -> (r: (ControlState, Vec<Actuation>))
    ensures
        r.0 == spec_dispatch(state, cmd).0,
        r.1@ == spec_dispatch(state, cmd).1,
{
    match parse_command_name(&cmd.name) {
        CommandName::Speed => match cmd.value {
            CommandValue::Int(s) => {
                let pulse = speed_to_pulse(s, state.turbo);
                let mut acts: Vec<Actuation> = Vec::new();
                acts.push(Actuation::Pulse { channel: MOTOR_CHANNEL, pulse });
                proof {
                    assert(acts@ =~= spec_dispatch(state, cmd).1);
                }
                (state, acts)
            },
            _ => (state, Vec::new()),
        },
        CommandName::Direction => match cmd.value {
            CommandValue::Int(d) => {
                let (front, back) = direction_to_pulse(d);
                let mut acts: Vec<Actuation> = Vec::new();
                acts.push(Actuation::Pulse { channel: FRONT_STEERING_CHANNEL, pulse: front });
                acts.push(Actuation::Pulse { channel: BACK_STEERING_CHANNEL, pulse: back });
                proof {
                    assert(acts@ =~= spec_dispatch(state, cmd).1);
                }
                (state, acts)
            },
            _ => (state, Vec::new()),
        },
        CommandName::Headlights => match cmd.value {
            CommandValue::Bool(level) => {
                let mut acts: Vec<Actuation> = Vec::new();
                acts.push(Actuation::Output { line: Line::Lights, level });
                proof {
                    assert(acts@ =~= spec_dispatch(state, cmd).1);
                }
                (state, acts)
            },
            _ => (state, Vec::new()),
        },
        CommandName::Horn => match cmd.value {
            CommandValue::Bool(level) => {
                let mut acts: Vec<Actuation> = Vec::new();
                acts.push(Actuation::Output { line: Line::Horn, level });
                proof {
                    assert(acts@ =~= spec_dispatch(state, cmd).1);
                }
                (state, acts)
            },
            _ => (state, Vec::new()),
        },
        CommandName::Turbo => match cmd.value {
            CommandValue::Bool(level) => (ControlState { turbo: level, ..state }, Vec::new()),
            _ => (state, Vec::new()),
        },
        CommandName::Calibrate => (state, calibration_actions()),
        CommandName::Unknown => (state, Vec::new()),
    }
}

/// Advances the loop by one event and returns the actuation plan the
/// driver must carry out, in order.
pub fn step(state: ControlState, event: Event) -> (r: (ControlState, Vec<Actuation>))
    ensures
        r.0 == spec_step(state, event).0,
        r.1@ == spec_step(state, event).1,
{
    match state.phase {
        Phase::Initializing => match event {
            Event::InitSucceeded => (
                ControlState { phase: Phase::Running, turbo: state.turbo },
                Vec::new(),
            ),
            Event::InitFailed => (
                ControlState { phase: Phase::Terminated, turbo: state.turbo },
                Vec::new(),
            ),
            _ => (state, Vec::new()),
        },
        Phase::Running => match event {
            Event::Received(cmd) => dispatch(state, cmd),
            Event::ChannelClosed => (
                ControlState { phase: Phase::Draining, turbo: state.turbo },
                Vec::new(),
            ),
            _ => (state, Vec::new()),
        },
        Phase::Draining => match event {
            Event::SourceFinished => (
                ControlState { phase: Phase::Terminated, turbo: state.turbo },
                shutdown_actions(),
            ),
            _ => (state, Vec::new()),
        },
        Phase::Terminated => (state, Vec::new()),
    }
}

/// A command the dispatcher must drop: its value has the wrong type for
/// its name. (`calibrate` ignores its value and is never malformed.)
pub open spec fn spec_malformed(cmd: Command) -> bool {
    match spec_command_name(cmd.name@) {
        CommandName::Speed | CommandName::Direction => !(cmd.value is Int),
        CommandName::Headlights | CommandName::Horn | CommandName::Turbo => !(cmd.value is Bool),
        CommandName::Calibrate => false,
        CommandName::Unknown => false,
    }
}

/// Law: a malformed or unknown command leaves the running loop exactly
/// as it was and produces no actuation at all.
pub proof fn lemma_malformed_command_ignored(state: ControlState, cmd: Command)
    requires
        state.phase == Phase::Running,
        spec_malformed(cmd) || spec_command_name(cmd.name@) == CommandName::Unknown,
    ensures
        spec_step(state, Event::Received(cmd)).0 == state,
        spec_step(state, Event::Received(cmd)).1 == Seq::<Actuation>::empty(),
{
}

/// Law: a calibrate command returns both steering axles to dead center,
/// whatever steering went before, and touches neither motor nor turbo.
pub proof fn lemma_calibrate_restores_neutral(state: ControlState, cmd: Command)
    requires
        state.phase == Phase::Running,
        spec_command_name(cmd.name@) == CommandName::Calibrate,
    ensures
        spec_step(state, Event::Received(cmd)).0 == state,
        spec_step(state, Event::Received(cmd)).1 == spec_calibration_actions(),
{
}

/// Law: when the command channel closes, the loop drains without
/// actuating, and the one transition into `Terminated` issues the full
/// safe-shutdown plan.
pub proof fn lemma_channel_close_shuts_down(state: ControlState)
    requires
        state.phase == Phase::Running,
    ensures
        spec_step(state, Event::ChannelClosed).0.phase == Phase::Draining,
        spec_step(state, Event::ChannelClosed).1 == Seq::<Actuation>::empty(),
        spec_step(spec_step(state, Event::ChannelClosed).0, Event::SourceFinished).0.phase
            == Phase::Terminated,
        spec_step(spec_step(state, Event::ChannelClosed).0, Event::SourceFinished).1
            == spec_shutdown_actions(),
{
}

/// Law: `Terminated` is absorbing — after the shutdown plan was issued
/// once, no further event changes the state or actuates anything, so the
/// safe-shutdown sequence happens exactly once.
pub proof fn lemma_terminated_is_absorbing(state: ControlState, event: Event)
    requires
        state.phase == Phase::Terminated,
    ensures
        spec_step(state, event).0 == state,
        spec_step(state, event).1 == Seq::<Actuation>::empty(),
{
}

/// Law: the turbo flag moves only on a well-formed turbo command; every
/// other event carries it over unchanged.
pub proof fn lemma_turbo_changes_only_by_turbo_command(state: ControlState, event: Event)
    ensures
        spec_step(state, event).0.turbo != state.turbo ==> (event matches Event::Received(cmd)
            && spec_command_name(cmd.name@) == CommandName::Turbo && cmd.value is Bool),
{
}

} // verus!
