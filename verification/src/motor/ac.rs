//! AC motor driver with relay control.
//!
//! This driver provides on/off control via relay (mechanical or SSR), a
//! minimum switch delay that protects relays from rapid switching, optional
//! direction control for reversible motors, and enable interlock. `update()`
//! is called periodically (typically every millisecond) to manage timing.
//!
//! Mechanical relays need debounce time (~100ms minimum between switches);
//! SSRs switch faster but still benefit from delay (~10ms); direction
//! changes wait for the motor to stop.

use vstd::prelude::*;

use crate::traits::motor::{AcMotorDriver, AcMotorState, MotorDriver, MotorError};
use crate::traits::stepper::Direction;

verus! {

/// AC motor relay type
#[derive(Debug, Clone, Copy, PartialEq, Eq, Default, Structural)]
pub enum AcRelayType {
    /// Mechanical relay - slower switching, longer delay needed
    #[default]
    Mechanical,
    /// Solid State Relay (SSR) - faster switching
    Ssr,
}

/// AC motor driver configuration
#[derive(Debug, Clone)]
pub struct AcMotorConfig {
    /// Relay type affects minimum switch delay
    pub relay_type: AcRelayType,
    /// Minimum delay between relay switches (ms)
    pub min_switch_delay_ms: u32,
    /// Relay is active-high (true) or active-low (false)
    pub active_high: bool,
    /// Whether direction control is available
    pub has_direction: bool,
}

impl Default for AcMotorConfig {
    fn default() -> (r: Self)
        ensures
            r.relay_type == AcRelayType::Mechanical,
            r.min_switch_delay_ms == 100,
            r.active_high,
            !r.has_direction,
    {
        AcMotorConfig {
            relay_type: AcRelayType::Mechanical,
            min_switch_delay_ms: 100,
            active_high: true,
            has_direction: false,
        }
    }
}

impl AcMotorConfig {
    /// Create config for a mechanical relay
    pub fn mechanical() -> (r: Self)
        ensures
            r.relay_type == AcRelayType::Mechanical,
            r.min_switch_delay_ms == 100,
            r.active_high,
            !r.has_direction,
    {
        AcMotorConfig {
            relay_type: AcRelayType::Mechanical,
            min_switch_delay_ms: 100,
            active_high: true,
            has_direction: false,
        }
    }

    /// Create config for an SSR
    pub fn ssr() -> (r: Self)
        ensures
            r.relay_type == AcRelayType::Ssr,
            r.min_switch_delay_ms == 10,
            r.active_high,
            !r.has_direction,
    {
        AcMotorConfig {
            relay_type: AcRelayType::Ssr,
            min_switch_delay_ms: 10,
            active_high: true,
            has_direction: false,
        }
    }
}

/// `a + b`, saturating at `u32::MAX`.
pub open spec fn sat_add_u32(a: u32, b: u32) -> u32 {
    if a + b > u32::MAX {
        u32::MAX
    } else {
        (a + b) as u32
    }
}

/// `a - b`, saturating at 0.
pub open spec fn sat_sub_u32(a: u32, b: u32) -> u32 {
    if a < b {
        0
    } else {
        (a - b) as u32
    }
}

/// AC motor driver state
///
/// This struct manages the motor state and provides safe relay control
/// with timing protection.
pub struct AcMotor {
    config: AcMotorConfig,
    /// Current direction
    direction: Direction,
    /// Desired direction (for after motor stops)
    desired_direction: Direction,
    /// Whether the driver is enabled
    enabled: bool,
    /// Current motor state
    state: AcMotorState,
    /// Time since last relay switch (ms)
    time_since_switch_ms: u32,
    /// Time remaining in switch delay (ms)
    switch_delay_remaining_ms: u32,
    /// Whether relay is currently active
    relay_active: bool,
}

impl AcMotor {
    /// The configuration.
    pub closed spec fn config_spec(&self) -> AcMotorConfig {
        self.config
    }

    /// The direction the motor turns in.
    pub closed spec fn direction(&self) -> Direction {
        self.direction
    }

    /// The direction to apply once the motor is off.
    pub closed spec fn desired_direction(&self) -> Direction {
        self.desired_direction
    }

    /// Whether the driver is enabled.
    pub closed spec fn enabled(&self) -> bool {
        self.enabled
    }

    /// The motor state.
    pub closed spec fn motor_state(&self) -> AcMotorState {
        self.state
    }

    /// Milliseconds since the relay last switched (saturating).
    pub closed spec fn since_switch(&self) -> u32 {
        self.time_since_switch_ms
    }

    /// Milliseconds left in the switch delay.
    pub closed spec fn delay_remaining(&self) -> u32 {
        self.switch_delay_remaining_ms
    }

    /// Whether the relay is energized.
    pub closed spec fn relay_active_spec(&self) -> bool {
        self.relay_active
    }

    /// The relay agrees with the motor state: energized while on, released
    /// while off (during the switch delay it may be either).
    pub open spec fn relay_agrees(&self) -> bool {
        &&& self.motor_state() == AcMotorState::On ==> self.relay_active_spec()
        &&& self.motor_state() == AcMotorState::Off ==> !self.relay_active_spec()
    }

    /// Create a new AC motor driver: disabled, off, clockwise, relay
    /// released, and free to switch at once
    pub fn new(config: AcMotorConfig) -> (r: Self)
        ensures
            r.config_spec() == config,
            r.direction() == Direction::Clockwise,
            r.desired_direction() == Direction::Clockwise,
            !r.enabled(),
            r.motor_state() == AcMotorState::Off,
            r.since_switch() == u32::MAX,
            r.delay_remaining() == 0,
            !r.relay_active_spec(),
            r.relay_agrees(),
    {
        AcMotor {
            config,
            direction: Direction::Clockwise,
            desired_direction: Direction::Clockwise,
            enabled: false,
            state: AcMotorState::Off,
            time_since_switch_ms: u32::MAX,
            switch_delay_remaining_ms: 0,
            relay_active: false,
        }
    }

    /// Get the current motor state
    pub fn state(&self) -> (r: AcMotorState)
        ensures
            r == self.motor_state(),
    {
        self.state
    }

    /// Get the configuration
    pub fn config(&self) -> (r: &AcMotorConfig)
        ensures
            *r == self.config_spec(),
    {
        &self.config
    }

    /// Get the relay output level, accounting for active-high/low wiring
    pub fn relay_state(&self) -> (r: bool)
        ensures
            r == (self.relay_active_spec() == self.config_spec().active_high),
    {
        if self.config.active_high {
            self.relay_active
        } else {
            !self.relay_active
        }
    }

    /// Get the direction pin state (true = forward/CW)
    pub fn direction_pin_state(&self) -> (r: bool)
        ensures
            r == (self.direction() == Direction::Clockwise),
    {
        self.direction == Direction::Clockwise
    }

    /// Switch the relay state, restarting the switch timing on a change
    fn switch_relay(&mut self, active: bool)
        ensures
            final(self).relay_active == active,
            old(self).relay_active != active ==> final(self).time_since_switch_ms == 0 && final(self).switch_delay_remaining_ms == old(self).config.min_switch_delay_ms,
            old(self).relay_active == active ==> final(self).time_since_switch_ms == old(self).time_since_switch_ms && final(self).switch_delay_remaining_ms == old(self).switch_delay_remaining_ms,
            final(self).config == old(self).config,
            final(self).direction == old(self).direction,
            final(self).desired_direction == old(self).desired_direction,
            final(self).enabled == old(self).enabled,
            final(self).state == old(self).state,
    {
        if self.relay_active != active {
            self.relay_active = active;
            self.time_since_switch_ms = 0;
            self.switch_delay_remaining_ms = self.config.min_switch_delay_ms;
        }
    }

    /// Update for a specific time delta (in ms): advance the switch timing,
    /// force the relay off when disabled, apply a pending direction while
    /// off, and end a finished switch delay in the relay's state.
    pub fn update_with_delta(&mut self, delta_ms: u32)
        ensures
            old(self).relay_agrees() ==> final(self).relay_agrees(),
            ac_step(*old(self), *final(self), delta_ms),
            final(self).config_spec() == old(self).config_spec(),
            final(self).desired_direction() == old(self).desired_direction(),
            final(self).enabled() == old(self).enabled(),
    {
        self.time_since_switch_ms = self.time_since_switch_ms.saturating_add(delta_ms);

        if self.switch_delay_remaining_ms > 0 {
            self.switch_delay_remaining_ms = self.switch_delay_remaining_ms.saturating_sub(delta_ms);
        }
        if !self.enabled {
            self.switch_relay(false);
            self.state = AcMotorState::Off;
            return ;
        }
        match self.state {
            AcMotorState::Off => {
                if self.direction != self.desired_direction {
                    self.direction = self.desired_direction;
                }
            },
            AcMotorState::On => {},
            AcMotorState::SwitchDelay => {
                if self.switch_delay_remaining_ms == 0 {
                    if self.relay_active {
                        self.state = AcMotorState::On;
                    } else {
                        self.state = AcMotorState::Off;
                    }
                }
            },
        }
    }
}

/// One update of the motor after `delta_ms` milliseconds (see
/// `AcMotor::update_with_delta`).
pub open spec fn ac_step(before: AcMotor, after: AcMotor, delta_ms: u32) -> bool {
    let t = sat_add_u32(before.since_switch(), delta_ms);
    let rem = sat_sub_u32(before.delay_remaining(), delta_ms);
    &&& !before.enabled() ==> {
        &&& !after.relay_active_spec()
        &&& after.motor_state() == AcMotorState::Off
        &&& before.relay_active_spec() ==> after.since_switch() == 0 && after.delay_remaining()
            == before.config_spec().min_switch_delay_ms
        &&& !before.relay_active_spec() ==> after.since_switch() == t && after.delay_remaining() == rem
        &&& after.direction() == before.direction()
    }
    &&& before.enabled() ==> {
        &&& after.since_switch() == t
        &&& after.delay_remaining() == rem
        &&& after.relay_active_spec() == before.relay_active_spec()
        &&& after.direction() == if before.motor_state() == AcMotorState::Off {
            before.desired_direction()
        } else {
            before.direction()
        }
        &&& after.motor_state() == if before.motor_state() == AcMotorState::SwitchDelay && rem == 0 {
            if before.relay_active_spec() {
                AcMotorState::On
            } else {
                AcMotorState::Off
            }
        } else {
            before.motor_state()
        }
    }
    &&& after.config_spec() == before.config_spec()
    &&& after.desired_direction() == before.desired_direction()
    &&& after.enabled() == before.enabled()
}

impl MotorDriver for AcMotor {
    open spec fn running(&self) -> bool {
        self.motor_state() == AcMotorState::On
    }

    /// Record the wanted direction; it takes effect at once while off and
    /// otherwise once the motor is off
    fn set_direction(&mut self, dir: Direction)
        ensures
            old(self).relay_agrees() ==> final(self).relay_agrees(),
            final(self).desired_direction() == dir,
            final(self).direction() == if old(self).motor_state() == AcMotorState::Off {
                dir
            } else {
                old(self).direction()
            },
            final(self).config_spec() == old(self).config_spec(),
            final(self).enabled() == old(self).enabled(),
            final(self).motor_state() == old(self).motor_state(),
            final(self).since_switch() == old(self).since_switch(),
            final(self).delay_remaining() == old(self).delay_remaining(),
            final(self).relay_active_spec() == old(self).relay_active_spec(),
    {
        self.desired_direction = dir;
        if self.state == AcMotorState::Off {
            self.direction = dir;
        }
    }

    fn get_direction(&self) -> (r: Direction)
        ensures
            r == self.direction(),
    {
        self.direction
    }

    /// Enable or disable; disabling releases the relay and turns the motor
    /// off at once
    fn enable(&mut self, enabled: bool)
        ensures
            old(self).relay_agrees() ==> final(self).relay_agrees(),
            final(self).enabled() == enabled,
            !enabled ==> !final(self).relay_active_spec() && final(self).motor_state()
                == AcMotorState::Off,
            !enabled && old(self).relay_active_spec() ==> final(self).since_switch() == 0,
            enabled ==> final(self).relay_active_spec() == old(self).relay_active_spec() && final(self).motor_state() == old(self).motor_state() && final(self).since_switch() == old(self).since_switch(),
            final(self).config_spec() == old(self).config_spec(),
            final(self).direction() == old(self).direction(),
            final(self).desired_direction() == old(self).desired_direction(),
    {
        self.enabled = enabled;
        if !enabled {
            self.switch_relay(false);
            self.state = AcMotorState::Off;
        }
    }

    fn is_enabled(&self) -> (r: bool)
        ensures
            r == self.enabled(),
    {
        self.enabled
    }

    /// Energize the relay: an error when disabled, or when the minimum
    /// switch delay has not passed since the last switch; from Off the
    /// relay switches on and the motor enters the switch delay
    fn start(&mut self) -> (r: Result<(), MotorError>)
        ensures
            old(self).relay_agrees() ==> final(self).relay_agrees(),
            !old(self).enabled() ==> r == Err::<(), MotorError>(MotorError::Disabled),
            old(self).enabled() && old(self).since_switch() < old(self).config_spec().min_switch_delay_ms ==> r == Err::<(), MotorError>(
                MotorError::SwitchTooFast,
            ),
            old(self).enabled() && old(self).since_switch() >= old(self).config_spec().min_switch_delay_ms ==> r is Ok,
            r is Ok && old(self).motor_state() == AcMotorState::Off ==> final(self).relay_active_spec() && final(self).motor_state() == AcMotorState::SwitchDelay,
            r is Ok && old(self).motor_state() == AcMotorState::Off && !old(self).relay_active_spec() ==> final(self).since_switch() == 0 && final(self).delay_remaining() == old(self).config_spec().min_switch_delay_ms,
            !(r is Ok && old(self).motor_state() == AcMotorState::Off) ==> final(self).relay_active_spec() == old(self).relay_active_spec() && final(self).motor_state()
                == old(self).motor_state() && final(self).since_switch() == old(self).since_switch()
                && final(self).delay_remaining() == old(self).delay_remaining(),
            final(self).config_spec() == old(self).config_spec(),
            final(self).enabled() == old(self).enabled(),
            final(self).direction() == old(self).direction(),
            final(self).desired_direction() == old(self).desired_direction(),
    {
        if !self.enabled {
            return Err(MotorError::Disabled);
        }
        if !self.can_switch() {
            return Err(MotorError::SwitchTooFast);
        }
        if self.state == AcMotorState::Off {
            self.switch_relay(true);
            self.state = AcMotorState::SwitchDelay;
        }
        Ok(())
    }

    /// Release the relay; a motor that is not off enters the switch delay
    fn stop(&mut self)
        ensures
            old(self).relay_agrees() ==> final(self).relay_agrees(),
            old(self).motor_state() != AcMotorState::Off ==> !final(self).relay_active_spec()
                && final(self).motor_state() == AcMotorState::SwitchDelay,
            old(self).motor_state() != AcMotorState::Off && old(self).relay_active_spec()
                ==> final(self).since_switch() == 0 && final(self).delay_remaining() == old(self).config_spec().min_switch_delay_ms,
            old(self).motor_state() == AcMotorState::Off ==> final(self).relay_active_spec()
                == old(self).relay_active_spec() && final(self).motor_state()
                == AcMotorState::Off && final(self).since_switch() == old(self).since_switch(),
            final(self).config_spec() == old(self).config_spec(),
            final(self).enabled() == old(self).enabled(),
            final(self).direction() == old(self).direction(),
            final(self).desired_direction() == old(self).desired_direction(),
    {
        if self.state != AcMotorState::Off {
            self.switch_relay(false);
            self.state = AcMotorState::SwitchDelay;
        }
    }

    fn is_running(&self) -> (r: bool)
        ensures
            r == (self.motor_state() == AcMotorState::On),
    {
        self.state == AcMotorState::On
    }

    fn is_stopped(&self) -> (r: bool)
        ensures
            r == (self.motor_state() == AcMotorState::Off),
    {
        self.state == AcMotorState::Off
    }
}

impl AcMotorDriver for AcMotor {
    fn has_direction_control(&self) -> (r: bool)
        ensures
            r == self.config_spec().has_direction,
    {
        self.config.has_direction
    }

    fn min_switch_delay_ms(&self) -> (r: u32)
        ensures
            r == self.config_spec().min_switch_delay_ms,
    {
        self.config.min_switch_delay_ms
    }

    fn can_switch(&self) -> (r: bool)
        ensures
            r == (self.since_switch() >= self.config_spec().min_switch_delay_ms),
    {
        self.time_since_switch_ms >= self.config.min_switch_delay_ms
    }

    /// One update with the default 1ms interval
    fn update(&mut self)
        ensures
            old(self).relay_agrees() ==> final(self).relay_agrees(),
            ac_step(*old(self), *final(self), 1),
            final(self).config_spec() == old(self).config_spec(),
            final(self).enabled() == old(self).enabled(),
            !old(self).enabled() ==> !final(self).relay_active_spec() && final(self).motor_state()
                == AcMotorState::Off,
    {
        self.update_with_delta(1);
    }
}

} // verus!
