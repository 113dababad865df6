//! Position control types for automated axis movement.
//!
//! These types define the command/status interface between the controller
//! and position motor tasks for Z and X axis control.

use vstd::prelude::*;

use crate::math::div_toward_zero;

verus! {

/// Axis identifier for position commands
#[derive(Debug, Clone, Copy, PartialEq, Eq, Structural)]
pub enum Axis {
    /// Z axis (vertical lift/lower)
    Z,
    /// X axis (horizontal jar positioning)
    X,
}

/// Command to move an axis to a position
#[derive(Debug, Clone, Copy, PartialEq, Eq, Structural)]
pub struct PositionCommand {
    /// Target axis
    pub axis: Axis,
    /// Target position in millimeters (can be negative for below-zero positions)
    pub target_mm: i32,
}

impl PositionCommand {
    /// Create a Z axis position command
    pub fn z(target_mm: i32) -> (r: Self)
        ensures
            r == (PositionCommand { axis: Axis::Z, target_mm }),
    {
        PositionCommand { axis: Axis::Z, target_mm }
    }

    /// Create an X axis position command
    pub fn x(target_mm: i32) -> (r: Self)
        ensures
            r == (PositionCommand { axis: Axis::X, target_mm }),
    {
        PositionCommand { axis: Axis::X, target_mm }
    }
}

/// Command to home an axis
#[derive(Debug, Clone, Copy, PartialEq, Eq, Structural)]
pub enum HomingCommand {
    /// Home Z axis (lift to top)
    HomeZ,
    /// Home X axis (move to reference position)
    HomeX,
}

/// Position operation error types
#[derive(Debug, Clone, Copy, PartialEq, Eq, Structural)]
pub enum PositionError {
    /// Endstop not triggered during homing
    EndstopNotTriggered,
    /// Motor stall detected (sensorless homing)
    StallDetected,
    /// Target position outside configured bounds
    OutOfBounds,
    /// Operation timed out
    Timeout,
    /// Motor not homed (position unknown)
    NotHomed,
}

/// Status of a position operation
#[derive(Debug, Clone, Copy, PartialEq, Eq, Structural)]
pub enum PositionStatus {
    /// Move completed successfully
    Complete(Axis),
    /// Homing completed successfully
    Homed(Axis),
    /// Position operation failed
    Error { axis: Axis, kind: PositionError },
}

/// The axis that a status reports on.
pub open spec fn status_axis(s: PositionStatus) -> Axis {
    match s {
        PositionStatus::Complete(a) => a,
        PositionStatus::Homed(a) => a,
        PositionStatus::Error { axis, .. } => axis,
    }
}

impl PositionStatus {
    /// Create a move complete status
    pub fn complete(axis: Axis) -> (r: Self)
        ensures
            r == PositionStatus::Complete(axis),
    {
        PositionStatus::Complete(axis)
    }

    /// Create a homing complete status
    pub fn homed(axis: Axis) -> (r: Self)
        ensures
            r == PositionStatus::Homed(axis),
    {
        PositionStatus::Homed(axis)
    }

    /// Create an error status
    pub fn error(axis: Axis, kind: PositionError) -> (r: Self)
        ensures
            r == (PositionStatus::Error { axis, kind }),
    {
        PositionStatus::Error { axis, kind }
    }

    /// Check if this is a successful status
    pub fn is_success(&self) -> (r: bool)
        ensures
            r == (*self is Complete || *self is Homed),
    {
        match self {
            PositionStatus::Complete(_) | PositionStatus::Homed(_) => true,
            _ => false,
        }
    }

    /// Check if this is an error status
    pub fn is_error(&self) -> (r: bool)
        ensures
            r == (*self is Error),
    {
        match self {
            PositionStatus::Error { .. } => true,
            _ => false,
        }
    }

    /// Get the axis for this status
    pub fn axis(&self) -> (r: Axis)
        ensures
            r == status_axis(*self),
    {
        match self {
            PositionStatus::Complete(axis) => *axis,
            PositionStatus::Homed(axis) => *axis,
            PositionStatus::Error { axis, .. } => *axis,
        }
    }
}

/// Every status is exactly one of a success or an error.
pub proof fn lemma_status_success_xor_error(s: PositionStatus)
    ensures
        (s is Complete || s is Homed) != (s is Error),
{
}

/// Configuration for position control
#[derive(Debug, Clone, Copy)]
pub struct PositionConfig {
    /// Steps per millimeter of travel
    pub steps_per_mm: u32,
    /// Minimum allowed position in mm
    pub position_min_mm: i32,
    /// Maximum allowed position in mm
    pub position_max_mm: i32,
    /// Position value at endstop (after homing)
    pub position_endstop_mm: i32,
    /// Homing speed in mm/s
    pub homing_speed_mm_s: u16,
    /// Distance to retract after hitting endstop during homing
    pub homing_retract_mm: u16,
    /// Normal move speed in mm/s
    pub move_speed_mm_s: u16,
}

impl Default for PositionConfig {
    fn default() -> (r: Self)
        ensures
            r.steps_per_mm == 80,
            r.position_min_mm == 0,
            r.position_max_mm == 200,
            r.position_endstop_mm == 0,
            r.homing_speed_mm_s == 10,
            r.homing_retract_mm == 5,
            r.move_speed_mm_s == 50,
    {
        PositionConfig {
            // Common for GT2 belt + 20T pulley + 1/16 microstep
            steps_per_mm: 80,
            position_min_mm: 0,
            position_max_mm: 200,
            position_endstop_mm: 0,
            homing_speed_mm_s: 10,
            homing_retract_mm: 5,
            move_speed_mm_s: 50,
        }
    }
}

impl PositionConfig {
    /// Whether a position lies within the configured bounds.
    pub open spec fn is_in_bounds_spec(&self, position_mm: i32) -> bool {
        self.position_min_mm <= position_mm <= self.position_max_mm
    }

    /// Check if a position is within bounds
    pub fn is_in_bounds(&self, position_mm: i32) -> (r: bool)
        ensures
            r == self.is_in_bounds_spec(position_mm),
    {
        position_mm >= self.position_min_mm && position_mm <= self.position_max_mm
    }

    /// Clamp a position to valid bounds
    pub fn clamp(&self, position_mm: i32) -> (r: i32)
        requires
            self.position_min_mm <= self.position_max_mm,
        ensures
            r == if position_mm < self.position_min_mm {
                self.position_min_mm
            } else if position_mm > self.position_max_mm {
                self.position_max_mm
            } else {
                position_mm
            },
            self.position_min_mm <= r <= self.position_max_mm,
            self.is_in_bounds_spec(position_mm) ==> r == position_mm,
    {
        if position_mm < self.position_min_mm {
            self.position_min_mm
        } else if position_mm > self.position_max_mm {
            self.position_max_mm
        } else {
            position_mm
        }
    }

    /// Calculate steps for a given distance in mm
    pub fn mm_to_steps(&self, mm: i32) -> (r: i32)
        requires
            self.steps_per_mm <= i32::MAX,
            i32::MIN <= mm * self.steps_per_mm <= i32::MAX,
        ensures
            r == mm * self.steps_per_mm,
    {
        mm * self.steps_per_mm as i32
    }

    /// Calculate mm from steps, rounding toward zero
    pub fn steps_to_mm(&self, steps: i32) -> (r: i32)
        requires
            0 < self.steps_per_mm <= i32::MAX,
        ensures
            r == div_toward_zero(steps as int, self.steps_per_mm as int),
    {
        steps / self.steps_per_mm as i32
    }
}

} // verus!
