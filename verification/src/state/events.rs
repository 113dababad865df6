//! Events that trigger state transitions.

use vstd::prelude::*;

use crate::state::machine::ErrorKind;

verus! {

/// Events that can trigger state transitions.
#[derive(Debug, Clone, Copy, PartialEq, Eq, Structural)]
pub enum Event {
    /// Boot sequence completed successfully
    BootComplete,
    /// Automated machine starts homing its axes after boot
    StartHoming,
    /// Homing of all axes finished
    HomingComplete,
    /// User selected a program from the list
    SelectProgram,
    /// User wants to edit a parameter
    EditParameter,
    /// User confirmed parameter edit
    ConfirmEdit,
    /// User wants to go back
    Back,
    /// User pressed start
    Start,
    /// User pressed pause
    Pause,
    /// User pressed resume
    Resume,
    /// User pressed abort (long press)
    Abort,
    /// User confirmed action (generic confirmation)
    UserConfirm,
    /// Current profile/step finished
    ProfileFinished,
    /// All steps in program completed
    ProgramFinished,
    /// Move to next step
    NextStep,
    /// Start automated spin-off (has z motor)
    StartSpinOff,
    /// Prompt user to lift basket (manual machine)
    PromptSpinOff,
    /// Spin-off phase completed
    SpinOffFinished,
    /// Prompt user to move to next jar
    PromptNextJar,
    /// Z axis starts lifting the basket to the safe height
    StartLift,
    /// Z axis lift finished
    LiftComplete,
    /// X axis starts moving to the next jar
    StartMoveX,
    /// X axis move finished
    MoveXComplete,
    /// Z axis starts lowering the basket into the jar
    StartLower,
    /// Z axis lowering finished
    LowerComplete,
    /// User started PID autotune
    StartAutotune,
    /// Autotune completed successfully with new coefficients
    AutotuneComplete,
    /// Autotune failed (timeout, over-temp, sensor fault, etc.)
    AutotuneFailed,
    /// User cancelled autotune
    CancelAutotune,
    /// Error detected by safety subsystem
    ErrorDetected(ErrorKind),
    /// User acknowledged error
    AcknowledgeError,
}

impl Event {
    /// The events that a user action produces.
    pub open spec fn spec_is_user_event(self) -> bool {
        match self {
            Event::SelectProgram | Event::EditParameter | Event::ConfirmEdit | Event::Back
            | Event::Start | Event::Pause | Event::Resume | Event::Abort | Event::UserConfirm
            | Event::AcknowledgeError | Event::StartAutotune | Event::CancelAutotune => true,
            _ => false,
        }
    }

    /// The events that the program scheduler produces.
    pub open spec fn spec_is_scheduler_event(self) -> bool {
        match self {
            Event::ProfileFinished | Event::ProgramFinished | Event::NextStep
            | Event::StartSpinOff | Event::PromptSpinOff | Event::SpinOffFinished
            | Event::PromptNextJar => true,
            _ => false,
        }
    }

    /// Check if this event is user-initiated
    pub fn is_user_event(&self) -> (r: bool)
        ensures
            r == self.spec_is_user_event(),
    {
        match self {
            Event::SelectProgram | Event::EditParameter | Event::ConfirmEdit | Event::Back
            | Event::Start | Event::Pause | Event::Resume | Event::Abort | Event::UserConfirm
            | Event::AcknowledgeError | Event::StartAutotune | Event::CancelAutotune => true,
            _ => false,
        }
    }

    /// Check if this event is from the scheduler
    pub fn is_scheduler_event(&self) -> (r: bool)
        ensures
            r == self.spec_is_scheduler_event(),
    {
        match self {
            Event::ProfileFinished | Event::ProgramFinished | Event::NextStep
            | Event::StartSpinOff | Event::PromptSpinOff | Event::SpinOffFinished
            | Event::PromptNextJar => true,
            _ => false,
        }
    }

    /// Check if this event indicates an error
    pub fn is_error_event(&self) -> (r: bool)
        ensures
            r == (*self is ErrorDetected),
    {
        match self {
            Event::ErrorDetected(_) => true,
            _ => false,
        }
    }
}

/// No event is both a user action and a scheduler notification.
pub proof fn lemma_event_sources_disjoint(e: Event)
    ensures
        !(e.spec_is_user_event() && e.spec_is_scheduler_event()),
        e is ErrorDetected ==> !e.spec_is_user_event() && !e.spec_is_scheduler_event(),
{
}

} // verus!
