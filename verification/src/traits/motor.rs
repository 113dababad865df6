//! Motor driver traits for DC (PWM-controlled) and AC (relay-controlled)
//! motors. Stepper motors use the traits of the `stepper` module.

use vstd::prelude::*;

use crate::traits::stepper::Direction;

verus! {

/// DC motor driver type
#[derive(Debug, Clone, Copy, PartialEq, Eq, Default, Structural)]
pub enum DcDriverType {
    /// H-bridge driver (L298N, TB6612, etc.) - supports direction control
    #[default]
    HBridge,
    /// Single MOSFET driver - only supports one direction
    Mosfet,
    /// Dual MOSFET driver - supports direction control
    DualMosfet,
}

/// AC motor relay type
#[derive(Debug, Clone, Copy, PartialEq, Eq, Default, Structural)]
pub enum AcRelayType {
    /// Mechanical relay - slower switching, requires debounce
    #[default]
    Mechanical,
    /// Solid State Relay (SSR) - fast switching, no debounce
    Ssr,
}

/// Errors that can occur with motor operations
#[derive(Debug, Clone, Copy, PartialEq, Eq, Structural)]
pub enum MotorError {
    /// Motor is disabled
    Disabled,
    /// Safety interlock prevented operation
    Interlock,
    /// Endstop triggered unexpectedly
    EndstopTriggered,
    /// Motor not homed
    NotHomed,
    /// Invalid speed value
    InvalidSpeed,
    /// Relay switch too fast
    SwitchTooFast,
}

/// Base trait for all motor drivers (DC and AC)
pub trait MotorDriver {
    /// Whether the motor is running, as `is_running` reports it.
    spec fn running(&self) -> bool;

    /// Set the rotation direction (may be a no-op without direction control)
    fn set_direction(&mut self, dir: Direction);

    /// Get the current direction
    fn get_direction(&self) -> Direction;

    /// Enable or disable the motor driver; disabled motors coast to a stop
    fn enable(&mut self, enabled: bool);

    /// Check if the motor is enabled
    fn is_enabled(&self) -> bool;

    /// Start the motor (begin running)
    fn start(&mut self) -> Result<(), MotorError>;

    /// Stop the motor (begin stopping)
    fn stop(&mut self);

    /// Check if the motor is currently running
    fn is_running(&self) -> (r: bool)
        ensures
            r == self.running(),
    ;

    /// Check if the motor is fully stopped; unless a driver knows better,
    /// a motor that is not running is stopped
    fn is_stopped(&self) -> (r: bool)
        default_ensures
            r == !self.running(),
    {
        !self.is_running()
    }
}

/// Trait for DC motors with PWM speed control
pub trait DcMotorDriver: MotorDriver {
    /// Whether the state and configuration let `update` run: an
    /// implementation states here what its ramp arithmetic needs.
    spec fn update_allowed(&self) -> bool;

    /// The target speed percentage, as `get_speed` reports it.
    spec fn speed_setting(&self) -> u8;

    /// The actual speed percentage, as `get_actual_speed` reports it.
    spec fn speed_now(&self) -> u8;

    /// Set the target speed as a percentage (0-100)
    fn set_speed(&mut self, percent: u8);

    /// Get the current target speed percentage
    fn get_speed(&self) -> (r: u8)
        ensures
            r == self.speed_setting(),
    ;

    /// Get the current actual speed (may differ during ramping)
    fn get_actual_speed(&self) -> (r: u8)
        ensures
            r == self.speed_now(),
    ;

    /// Check if the motor has reached its target speed
    fn is_at_speed(&self) -> (r: bool)
        ensures
            r == (self.speed_setting() == self.speed_now()),
    {
        self.get_speed() == self.get_actual_speed()
    }

    /// Update the motor state; returns the duty cycle to apply to PWM
    fn update(&mut self) -> u8
        requires
            old(self).update_allowed(),
    ;
}

/// Trait for AC motors with relay control
pub trait AcMotorDriver: MotorDriver {
    /// Check if direction control is available
    fn has_direction_control(&self) -> bool;

    /// Get the minimum time between relay switches (for debounce)
    fn min_switch_delay_ms(&self) -> u32;

    /// Check if enough time has passed since last relay operation
    fn can_switch(&self) -> bool;

    /// Update the motor state (call periodically for timing/safety)
    fn update(&mut self);
}

/// State for a DC motor with soft start/stop
#[derive(Debug, Clone, Copy, PartialEq, Eq, Default, Structural)]
pub enum DcMotorState {
    /// Motor is stopped
    #[default]
    Stopped,
    /// Motor is ramping up to target speed
    Starting,
    /// Motor is running at target speed
    Running,
    /// Motor is ramping down to stop
    Stopping,
}

/// State for an AC motor
#[derive(Debug, Clone, Copy, PartialEq, Eq, Default, Structural)]
pub enum AcMotorState {
    /// Motor is off
    #[default]
    Off,
    /// Motor is running
    On,
    /// Motor is in switch delay (waiting before next operation)
    SwitchDelay,
}

} // verus!
