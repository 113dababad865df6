//! Stepper motor driver traits.
//!
//! These traits abstract over different stepper driver implementations
//! (TMC2209, TMC2130, A4988, etc.)

use vstd::prelude::*;

verus! {

/// Motor rotation direction
#[derive(Debug, Clone, Copy, PartialEq, Eq, Structural)]
pub enum Direction {
    /// Clockwise rotation
    Clockwise,
    /// Counter-clockwise rotation
    CounterClockwise,
}

/// The direction opposite to `d`.
pub open spec fn spec_opposite(d: Direction) -> Direction {
    match d {
        Direction::Clockwise => Direction::CounterClockwise,
        Direction::CounterClockwise => Direction::Clockwise,
    }
}

impl Direction {
    /// Get the opposite direction
    pub fn opposite(self) -> (r: Self)
        ensures
            r == spec_opposite(self),
            r != self,
    {
        match self {
            Direction::Clockwise => Direction::CounterClockwise,
            Direction::CounterClockwise => Direction::Clockwise,
        }
    }
}

/// Reversing twice gives back the same direction.
pub proof fn lemma_opposite_involution(d: Direction)
    ensures
        spec_opposite(spec_opposite(d)) == d,
        spec_opposite(d) != d,
{
}

/// Errors that can occur with stepper operations
#[derive(Debug, Clone, Copy, PartialEq, Eq, Structural)]
pub enum StepperError {
    /// Communication error with driver (UART/SPI)
    CommunicationError,
    /// Motor stall detected
    StallDetected,
    /// Driver overtemperature
    OverTemperature,
    /// Invalid configuration
    InvalidConfig,
}

/// Trait for stepper motor drivers
///
/// Implementations provide motor control capabilities while abstracting
/// the underlying driver interface (UART for TMC2209, SPI for TMC2130, etc.)
pub trait StepperDriver {
    /// The target speed in RPM, as `get_rpm` reports it.
    spec fn rpm_setting(&self) -> u16;

    /// Whether the motor runs at its target speed, as `is_at_speed`
    /// reports it.
    spec fn speed_reached(&self) -> bool;

    /// Set the target speed in RPM; 0 stops the motor
    fn set_rpm(&mut self, rpm: u16);

    /// Get the current target RPM
    fn get_rpm(&self) -> (r: u16)
        ensures
            r == self.rpm_setting(),
    ;

    /// Set the rotation direction (only while stopped)
    fn set_direction(&mut self, dir: Direction);

    /// Get the current direction
    fn get_direction(&self) -> Direction;

    /// Enable or disable the motor driver
    fn enable(&mut self, enabled: bool);

    /// Check if the motor is enabled
    fn is_enabled(&self) -> bool;

    /// Check if a stall has been detected
    fn is_stalled(&self) -> bool;

    /// Clear any stall flag
    fn clear_stall(&mut self);

    /// Check if the motor is currently at the target RPM
    fn is_at_speed(&self) -> (r: bool)
        ensures
            r == self.speed_reached(),
    ;

    /// Check if the motor is stopped: a target of 0 RPM, reached
    fn is_stopped(&self) -> (r: bool)
        ensures
            r == (self.rpm_setting() == 0 && self.speed_reached()),
    {
        self.get_rpm() == 0 && self.is_at_speed()
    }
}

/// Extended trait for position-controlled steppers (z, x, lid)
pub trait PositionStepperDriver: StepperDriver {
    /// Move to an absolute position
    fn move_to(&mut self, position: i32) -> Result<(), StepperError>;

    /// Get the current position
    fn get_position(&self) -> i32;

    /// Start homing sequence
    fn home(&mut self) -> Result<(), StepperError>;

    /// Check if homing is complete
    fn is_homed(&self) -> bool;

    /// Check if a move is in progress
    fn is_moving(&self) -> bool;
}

} // verus!
