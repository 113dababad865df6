//! State machine definition.
//!
//! All motor, heater, and UI behavior is a function of the current state
//! and an event.

use vstd::prelude::*;

use crate::state::events::Event;

verus! {

/// Machine states
#[derive(Debug, Clone, Copy, PartialEq, Eq, Structural)]
pub enum State {
    /// Power-on initialization, hardware checks, config loading
    Boot,
    /// Homing Z and/or X axes (automated machines)
    Homing,
    /// Ready state, program list visible
    Idle,
    /// Program chosen, summary displayed
    ProgramSelected,
    /// User editing program parameters
    EditProgram,
    /// Waiting for user to move basket to jar (manual machines)
    AwaitingJar,
    /// Profile executing (basket motor active in jar)
    Running,
    /// Waiting for user to lift basket for spin-off (manual machines)
    AwaitingSpinOff,
    /// Basket lifted, spinning to shed excess solution
    SpinOff,
    /// Z axis lifting basket to safe_z (automated machines)
    Lifting,
    /// X axis moving basket to next jar position (fully automated)
    MovingToJar,
    /// Z axis lowering basket into jar (automated machines)
    Lowering,
    /// Execution paused by user
    Paused,
    /// Current step/jar complete, transitioning to next
    StepComplete,
    /// All steps completed successfully
    ProgramComplete,
    /// PID autotune in progress
    Autotuning,
    /// Fault detected; outputs disabled
    Error(ErrorKind),
}

/// Types of errors that can occur
#[derive(Debug, Clone, Copy, PartialEq, Eq, Structural)]
pub enum ErrorKind {
    /// Temperature sensor fault (open/short)
    ThermistorFault,
    /// Temperature exceeded safe limit
    OverTemperature,
    /// Motor stall detected
    MotorStall,
    /// Display communication lost
    LinkLost,
    /// Configuration error
    ConfigError,
    /// Homing failed (endstop not triggered, timeout)
    HomingFailed,
    /// Position out of bounds
    PositionOutOfBounds,
    /// Unknown/generic error
    Unknown,
}

/// The states in which the motors may run.
pub open spec fn spec_motor_allowed(s: State) -> bool {
    match s {
        State::Running | State::SpinOff | State::Homing | State::Lifting | State::MovingToJar
        | State::Lowering => true,
        _ => false,
    }
}

/// The states in which the heater may run.
pub open spec fn spec_heater_allowed(s: State) -> bool {
    match s {
        State::Running | State::Autotuning => true,
        _ => false,
    }
}

/// The states that wait for the user with no program in progress.
pub open spec fn spec_is_terminal(s: State) -> bool {
    match s {
        State::Idle | State::ProgramComplete | State::Error(_) => true,
        _ => false,
    }
}

/// The transition table: the state that follows `s` on `e`.
/// A pair that the table does not list leaves the state unchanged.
pub open spec fn next_state(s: State, e: Event) -> State {
    match (s, e) {
        (State::Boot, Event::BootComplete) => State::Idle,
        (State::Boot, Event::StartHoming) => State::Homing,
        (State::Boot, Event::ErrorDetected(k)) => State::Error(k),
        (State::Homing, Event::HomingComplete) => State::Idle,
        (State::Homing, Event::Abort) => State::Idle,
        (State::Homing, Event::ErrorDetected(k)) => State::Error(k),
        (State::Idle, Event::SelectProgram) => State::ProgramSelected,
        (State::Idle, Event::StartAutotune) => State::Autotuning,
        (State::Idle, Event::ErrorDetected(k)) => State::Error(k),
        (State::ProgramSelected, Event::EditParameter) => State::EditProgram,
        (State::ProgramSelected, Event::Start) => State::Running,
        (State::ProgramSelected, Event::Back) => State::Idle,
        (State::ProgramSelected, Event::ErrorDetected(k)) => State::Error(k),
        (State::EditProgram, Event::ConfirmEdit) => State::ProgramSelected,
        (State::EditProgram, Event::Back) => State::ProgramSelected,
        (State::EditProgram, Event::ErrorDetected(k)) => State::Error(k),
        (State::AwaitingJar, Event::UserConfirm) => State::Running,
        (State::AwaitingJar, Event::StartLower) => State::Lowering,
        (State::AwaitingJar, Event::Abort) => State::Idle,
        (State::AwaitingJar, Event::ErrorDetected(k)) => State::Error(k),
        (State::Running, Event::Pause) => State::Paused,
        (State::Running, Event::ProfileFinished) => State::StepComplete,
        (State::Running, Event::StartSpinOff) => State::SpinOff,
        (State::Running, Event::PromptSpinOff) => State::AwaitingSpinOff,
        (State::Running, Event::StartLift) => State::Lifting,
        (State::Running, Event::Abort) => State::Idle,
        (State::Running, Event::ErrorDetected(k)) => State::Error(k),
        (State::AwaitingSpinOff, Event::UserConfirm) => State::SpinOff,
        (State::AwaitingSpinOff, Event::Abort) => State::Idle,
        (State::AwaitingSpinOff, Event::ErrorDetected(k)) => State::Error(k),
        (State::SpinOff, Event::SpinOffFinished) => State::StepComplete,
        (State::SpinOff, Event::StartLift) => State::Lifting,
        (State::SpinOff, Event::Abort) => State::Idle,
        (State::SpinOff, Event::ErrorDetected(k)) => State::Error(k),
        (State::Paused, Event::Resume) => State::Running,
        (State::Paused, Event::Abort) => State::Idle,
        (State::Paused, Event::ErrorDetected(k)) => State::Error(k),
        (State::StepComplete, Event::NextStep) => State::Running,
        (State::StepComplete, Event::PromptNextJar) => State::AwaitingJar,
        (State::StepComplete, Event::StartLift) => State::Lifting,
        (State::StepComplete, Event::ProgramFinished) => State::ProgramComplete,
        (State::StepComplete, Event::ErrorDetected(k)) => State::Error(k),
        (State::ProgramComplete, Event::SelectProgram) => State::ProgramSelected,
        (State::ProgramComplete, Event::Back) => State::Idle,
        (State::ProgramComplete, Event::ErrorDetected(k)) => State::Error(k),
        (State::Autotuning, Event::AutotuneComplete) => State::Idle,
        (State::Autotuning, Event::AutotuneFailed) => State::Idle,
        (State::Autotuning, Event::CancelAutotune) => State::Idle,
        (State::Autotuning, Event::ErrorDetected(k)) => State::Error(k),
        (State::Lifting, Event::LiftComplete) => State::StepComplete,
        (State::Lifting, Event::StartMoveX) => State::MovingToJar,
        (State::Lifting, Event::PromptNextJar) => State::AwaitingJar,
        (State::Lifting, Event::Abort) => State::Idle,
        (State::Lifting, Event::ErrorDetected(k)) => State::Error(k),
        (State::MovingToJar, Event::MoveXComplete) => State::StepComplete,
        (State::MovingToJar, Event::StartLower) => State::Lowering,
        (State::MovingToJar, Event::Abort) => State::Idle,
        (State::MovingToJar, Event::ErrorDetected(k)) => State::Error(k),
        (State::Lowering, Event::LowerComplete) => State::Running,
        (State::Lowering, Event::Abort) => State::Idle,
        (State::Lowering, Event::ErrorDetected(k)) => State::Error(k),
        (State::Error(_), Event::AcknowledgeError) => State::Idle,
        _ => s,
    }
}

/// The states from which a user abort returns the machine to Idle.
pub open spec fn spec_abortable(s: State) -> bool {
    match s {
        State::Homing | State::AwaitingJar | State::Running | State::AwaitingSpinOff
        | State::SpinOff | State::Paused | State::Lifting | State::MovingToJar
        | State::Lowering => true,
        _ => false,
    }
}

impl State {
    /// Check if this state allows motor operation
    pub fn motor_allowed(&self) -> (r: bool)
        ensures
            r == spec_motor_allowed(*self),
    {
        match self {
            State::Running | State::SpinOff | State::Homing | State::Lifting
            | State::MovingToJar | State::Lowering => true,
            _ => false,
        }
    }

    /// Check if this state allows heater operation
    ///
    /// Heater allowed during Running and Autotuning states, not during
    /// SpinOff (basket is out of solution).
    pub fn heater_allowed(&self) -> (r: bool)
        ensures
            r == spec_heater_allowed(*self),
    {
        match self {
            State::Running | State::Autotuning => true,
            _ => false,
        }
    }

    /// Check if this is an error state
    pub fn is_error(&self) -> (r: bool)
        ensures
            r == (*self is Error),
    {
        match self {
            State::Error(_) => true,
            _ => false,
        }
    }

    /// Check if this is a terminal state requiring user action
    pub fn is_terminal(&self) -> (r: bool)
        ensures
            r == spec_is_terminal(*self),
    {
        match self {
            State::Idle | State::ProgramComplete | State::Error(_) => true,
            _ => false,
        }
    }

    /// Process an event and return the next state
    ///
    /// This is the core state transition logic.
    pub fn transition(self, event: Event) -> (r: State)
        ensures
            r == next_state(self, event),
    {
        match (self, event) {
            (State::Boot, Event::BootComplete) => State::Idle,
            (State::Boot, Event::StartHoming) => State::Homing,
            (State::Boot, Event::ErrorDetected(kind)) => State::Error(kind),
            (State::Homing, Event::HomingComplete) => State::Idle,
            (State::Homing, Event::Abort) => State::Idle,
            (State::Homing, Event::ErrorDetected(kind)) => State::Error(kind),
            (State::Idle, Event::SelectProgram) => State::ProgramSelected,
            (State::Idle, Event::StartAutotune) => State::Autotuning,
            (State::Idle, Event::ErrorDetected(kind)) => State::Error(kind),
            (State::ProgramSelected, Event::EditParameter) => State::EditProgram,
            (State::ProgramSelected, Event::Start) => State::Running,
            (State::ProgramSelected, Event::Back) => State::Idle,
            (State::ProgramSelected, Event::ErrorDetected(kind)) => State::Error(kind),
            (State::EditProgram, Event::ConfirmEdit) => State::ProgramSelected,
            (State::EditProgram, Event::Back) => State::ProgramSelected,
            (State::EditProgram, Event::ErrorDetected(kind)) => State::Error(kind),
            // Manual: user moved jar, start running
            (State::AwaitingJar, Event::UserConfirm) => State::Running,
            // Semi-automated: user confirmed, lower basket
            (State::AwaitingJar, Event::StartLower) => State::Lowering,
            (State::AwaitingJar, Event::Abort) => State::Idle,
            (State::AwaitingJar, Event::ErrorDetected(kind)) => State::Error(kind),
            (State::Running, Event::Pause) => State::Paused,
            // Whether spin-off follows is decided by the scheduler
            (State::Running, Event::ProfileFinished) => State::StepComplete,
            (State::Running, Event::StartSpinOff) => State::SpinOff,
            (State::Running, Event::PromptSpinOff) => State::AwaitingSpinOff,
            (State::Running, Event::StartLift) => State::Lifting,
            (State::Running, Event::Abort) => State::Idle,
            (State::Running, Event::ErrorDetected(kind)) => State::Error(kind),
            (State::AwaitingSpinOff, Event::UserConfirm) => State::SpinOff,
            (State::AwaitingSpinOff, Event::Abort) => State::Idle,
            (State::AwaitingSpinOff, Event::ErrorDetected(kind)) => State::Error(kind),
            (State::SpinOff, Event::SpinOffFinished) => State::StepComplete,
            (State::SpinOff, Event::StartLift) => State::Lifting,
            (State::SpinOff, Event::Abort) => State::Idle,
            (State::SpinOff, Event::ErrorDetected(kind)) => State::Error(kind),
            (State::Paused, Event::Resume) => State::Running,
            (State::Paused, Event::Abort) => State::Idle,
            (State::Paused, Event::ErrorDetected(kind)) => State::Error(kind),
            (State::StepComplete, Event::NextStep) => State::Running,
            (State::StepComplete, Event::PromptNextJar) => State::AwaitingJar,
            (State::StepComplete, Event::StartLift) => State::Lifting,
            (State::StepComplete, Event::ProgramFinished) => State::ProgramComplete,
            (State::StepComplete, Event::ErrorDetected(kind)) => State::Error(kind),
            (State::ProgramComplete, Event::SelectProgram) => State::ProgramSelected,
            (State::ProgramComplete, Event::Back) => State::Idle,
            (State::ProgramComplete, Event::ErrorDetected(kind)) => State::Error(kind),
            (State::Autotuning, Event::AutotuneComplete) => State::Idle,
            (State::Autotuning, Event::AutotuneFailed) => State::Idle,
            (State::Autotuning, Event::CancelAutotune) => State::Idle,
            (State::Autotuning, Event::ErrorDetected(kind)) => State::Error(kind),
            (State::Lifting, Event::LiftComplete) => State::StepComplete,
            (State::Lifting, Event::StartMoveX) => State::MovingToJar,
            (State::Lifting, Event::PromptNextJar) => State::AwaitingJar,
            (State::Lifting, Event::Abort) => State::Idle,
            (State::Lifting, Event::ErrorDetected(kind)) => State::Error(kind),
            (State::MovingToJar, Event::MoveXComplete) => State::StepComplete,
            (State::MovingToJar, Event::StartLower) => State::Lowering,
            (State::MovingToJar, Event::Abort) => State::Idle,
            (State::MovingToJar, Event::ErrorDetected(kind)) => State::Error(kind),
            (State::Lowering, Event::LowerComplete) => State::Running,
            (State::Lowering, Event::Abort) => State::Idle,
            (State::Lowering, Event::ErrorDetected(kind)) => State::Error(kind),
            (State::Error(_), Event::AcknowledgeError) => State::Idle,
            _ => self,
        }
    }
}

/// A detected error moves every state that is not already an error into
/// that error, and in the error state no motor or heater may run.
pub proof fn lemma_error_detected_from_any_state(s: State, k: ErrorKind)
    requires
        !(s is Error),
    ensures
        next_state(s, Event::ErrorDetected(k)) == State::Error(k),
        !spec_motor_allowed(next_state(s, Event::ErrorDetected(k))),
        !spec_heater_allowed(next_state(s, Event::ErrorDetected(k))),
{
}

/// An error state is left only by acknowledging it, and then to Idle;
/// every other event keeps the machine in the same error.
pub proof fn lemma_error_is_sticky(k: ErrorKind, e: Event)
    ensures
        e == Event::AcknowledgeError ==> next_state(State::Error(k), e) == State::Idle,
        e != Event::AcknowledgeError ==> next_state(State::Error(k), e) == State::Error(k),
{
}

/// Aborting from any state of a running program, or of homing, returns the
/// machine to Idle, where no motor or heater runs.
pub proof fn lemma_abort_returns_to_idle(s: State)
    requires
        spec_abortable(s),
    ensures
        next_state(s, Event::Abort) == State::Idle,
        !spec_motor_allowed(next_state(s, Event::Abort)),
        !spec_heater_allowed(next_state(s, Event::Abort)),
{
}

/// The heater may only run in states where the basket is in the solution
/// or an autotune is in progress; in particular never during spin-off or
/// any axis movement.
pub proof fn lemma_heater_only_in_solution(s: State)
    ensures
        spec_heater_allowed(s) ==> (s == State::Running || s == State::Autotuning),
        spec_heater_allowed(s) && spec_motor_allowed(s) ==> s == State::Running,
{
}

/// Running is entered exactly on these events: Start on a selected
/// program, the user's confirmation at the jar, Resume from a pause, the
/// next step after a completed one, and the end of lowering the basket.
/// Every other event from every other state leads elsewhere.
pub proof fn lemma_running_entered_exactly_on(s: State, e: Event)
    requires
        s != State::Running,
    ensures
        next_state(s, e) == State::Running <==> (s == State::ProgramSelected && e == Event::Start)
            || (s == State::AwaitingJar && e == Event::UserConfirm)
            || (s == State::Paused && e == Event::Resume)
            || (s == State::StepComplete && e == Event::NextStep)
            || (s == State::Lowering && e == Event::LowerComplete),
{
}

/// How each state of a program run is entered from another state, event
/// by event: pausing only from Running; a step completes when the profile,
/// the spin-off, the lift or the move to the next jar finishes; spin-off
/// starts from Running or on the user's confirmation; the basket is lifted
/// from Running, spin-off or a completed step, moved after a lift, and
/// lowered at the jar or after the move; the user is asked for the next
/// jar after a step or a lift, and for spin-off from Running; a program
/// completes only from a completed step.
pub proof fn lemma_run_states_entered_exactly_on(s: State, e: Event)
    ensures
        s != State::Paused ==> (next_state(s, e) == State::Paused <==> s == State::Running && e
            == Event::Pause),
        s != State::StepComplete ==> (next_state(s, e) == State::StepComplete <==> (s == State::Running
            && e == Event::ProfileFinished) || (s == State::SpinOff && e == Event::SpinOffFinished)
            || (s == State::Lifting && e == Event::LiftComplete) || (s == State::MovingToJar && e
            == Event::MoveXComplete)),
        s != State::SpinOff ==> (next_state(s, e) == State::SpinOff <==> (s == State::Running && e
            == Event::StartSpinOff) || (s == State::AwaitingSpinOff && e == Event::UserConfirm)),
        s != State::AwaitingSpinOff ==> (next_state(s, e) == State::AwaitingSpinOff <==> s
            == State::Running && e == Event::PromptSpinOff),
        s != State::Lifting ==> (next_state(s, e) == State::Lifting <==> e == Event::StartLift && (s
            == State::Running || s == State::SpinOff || s == State::StepComplete)),
        s != State::MovingToJar ==> (next_state(s, e) == State::MovingToJar <==> s == State::Lifting
            && e == Event::StartMoveX),
        s != State::Lowering ==> (next_state(s, e) == State::Lowering <==> e == Event::StartLower && (s
            == State::AwaitingJar || s == State::MovingToJar)),
        s != State::AwaitingJar ==> (next_state(s, e) == State::AwaitingJar <==> e
            == Event::PromptNextJar && (s == State::StepComplete || s == State::Lifting)),
        s != State::ProgramComplete ==> (next_state(s, e) == State::ProgramComplete <==> s
            == State::StepComplete && e == Event::ProgramFinished),
{
}

/// How the screens before a run and the maintenance states are entered from
/// another state: homing only from Boot; a program is selected from Idle or
/// a completed program, or returned to from editing; editing only from a
/// selected program; autotuning only from Idle.
pub proof fn lemma_setup_states_entered_exactly_on(s: State, e: Event)
    ensures
        s != State::Homing ==> (next_state(s, e) == State::Homing <==> s == State::Boot && e
            == Event::StartHoming),
        s != State::ProgramSelected ==> (next_state(s, e) == State::ProgramSelected <==> (e
            == Event::SelectProgram && (s == State::Idle || s == State::ProgramComplete)) || (s
            == State::EditProgram && (e == Event::ConfirmEdit || e == Event::Back))),
        s != State::EditProgram ==> (next_state(s, e) == State::EditProgram <==> s
            == State::ProgramSelected && e == Event::EditParameter),
        s != State::Autotuning ==> (next_state(s, e) == State::Autotuning <==> s == State::Idle && e
            == Event::StartAutotune),
        s != State::Idle ==> (next_state(s, e) == State::Idle <==> (s == State::Boot && e
            == Event::BootComplete) || (s == State::Homing && e == Event::HomingComplete) || (e
            == Event::Abort && spec_abortable(s)) || (e == Event::Back && (s == State::ProgramSelected
            || s == State::ProgramComplete)) || (s == State::Autotuning && (e == Event::AutotuneComplete
            || e == Event::AutotuneFailed || e == Event::CancelAutotune)) || (s is Error && e
            == Event::AcknowledgeError)),
{
}

/// A program can only start running from the selected-program screen, from
/// an awaiting or paused program, from a finished step or a lowering basket.
pub proof fn lemma_running_entered_only_from(s: State, e: Event)
    requires
        s != State::Running,
        next_state(s, e) == State::Running,
    ensures
        (s == State::ProgramSelected && e == Event::Start)
        || (s == State::AwaitingJar && e == Event::UserConfirm)
        || (s == State::Paused && e == Event::Resume)
        || (s == State::StepComplete && e == Event::NextStep)
        || (s == State::Lowering && e == Event::LowerComplete),
{
}

} // verus!
