//! DC motor driver with PWM speed control.
//!
//! This driver provides PWM duty cycle control (0-100%), soft start/stop
//! ramping, direction control for H-bridge drivers, and handling of the
//! minimum duty cycle below which the motor won't start. `update()` is
//! called periodically (typically every millisecond) and returns the duty
//! cycle to apply to the PWM output.

use vstd::prelude::*;

use crate::traits::motor::{DcMotorDriver, DcMotorState, MotorDriver, MotorError};
use crate::traits::stepper::Direction;

verus! {

/// DC motor driver configuration
#[derive(Debug, Clone)]
pub struct DcMotorConfig {
    /// Minimum duty cycle percentage (below this the motor won't start)
    pub min_duty: u8,
    /// Soft start ramp time in ms (0 = instant)
    pub soft_start_ms: u16,
    /// Soft stop ramp time in ms (0 = instant)
    pub soft_stop_ms: u16,
    /// Whether direction control is available
    pub has_direction: bool,
}

impl Default for DcMotorConfig {
    fn default() -> (r: Self)
        ensures
            r.min_duty == 20,
            r.soft_start_ms == 500,
            r.soft_stop_ms == 300,
            r.has_direction,
    {
        DcMotorConfig { min_duty: 20, soft_start_ms: 500, soft_stop_ms: 300, has_direction: true }
    }
}

/// The PWM duty cycle for a speed percentage: 0 is off, and 1-100% map
/// linearly onto `min_duty`..=100%, capped at 100.
pub open spec fn scaled_duty(min_duty: u8, speed: u8) -> int {
    if speed == 0 {
        0
    } else {
        let scaled = min_duty + speed * (100 - min_duty) / 100;
        if scaled < 100 {
            scaled
        } else {
            100
        }
    }
}

/// The speed on a linear ramp from `start` to `end` after `elapsed_ms` of a
/// ramp lasting `total_ms` (instant when `total_ms` is 0), by whole percent
/// of progress.
pub open spec fn ramp_speed(start: u8, end: u8, elapsed_ms: int, total_ms: u16) -> int {
    if total_ms == 0 {
        end as int
    } else {
        let p = if elapsed_ms * 100 / (total_ms as int) < 100 {
            elapsed_ms * 100 / (total_ms as int)
        } else {
            100
        };
        if start < end {
            start + (end - start) * p / 100
        } else {
            start - (start - end) * p / 100
        }
    }
}

/// DC motor driver state
///
/// This struct manages the motor state and provides PWM duty cycle
/// calculation with soft start/stop ramping.
pub struct DcMotor {
    config: DcMotorConfig,
    /// Target speed (0-100%)
    target_speed: u8,
    /// Current actual speed (0-100%, during ramping)
    actual_speed: u8,
    /// Current direction
    direction: Direction,
    /// Whether the driver is enabled
    enabled: bool,
    /// Current motor state
    state: DcMotorState,
    /// Accumulated time for ramping (in ms)
    ramp_time_ms: u32,
    /// Speed when ramping started
    ramp_start_speed: u8,
    /// Speed target for ramping
    ramp_end_speed: u8,
}

impl DcMotor {
    /// The configuration.
    pub closed spec fn config_spec(&self) -> DcMotorConfig {
        self.config
    }

    /// The target speed in percent.
    pub closed spec fn target(&self) -> u8 {
        self.target_speed
    }

    /// The actual (ramped) speed in percent.
    pub closed spec fn actual(&self) -> u8 {
        self.actual_speed
    }

    /// The direction.
    pub closed spec fn direction(&self) -> Direction {
        self.direction
    }

    /// Whether the driver is enabled.
    pub closed spec fn enabled(&self) -> bool {
        self.enabled
    }

    /// The motor state.
    pub closed spec fn motor_state(&self) -> DcMotorState {
        self.state
    }

    /// Milliseconds into the current ramp.
    pub closed spec fn ramp_time(&self) -> u32 {
        self.ramp_time_ms
    }

    /// Speed at the start of the current ramp.
    pub closed spec fn ramp_start(&self) -> u8 {
        self.ramp_start_speed
    }

    /// Speed at the end of the current ramp.
    pub closed spec fn ramp_end(&self) -> u8 {
        self.ramp_end_speed
    }

    /// The driver's invariant: speeds are percentages, and a stopped motor
    /// has speed 0.
    pub closed spec fn wf(&self) -> bool {
        &&& self.target_speed <= 100
        &&& self.actual_speed <= 100
        &&& self.ramp_start_speed <= 100
        &&& self.ramp_end_speed <= 100
        &&& self.state == DcMotorState::Stopped ==> self.actual_speed == 0
    }

    /// The actual speed an enabled motor has after an update by
    /// `delta_ms` (see `update_with_delta`).
    pub open spec fn next_actual(&self, delta_ms: u32) -> int {
        let t = self.ramp_time() + delta_ms;
        match self.motor_state() {
            DcMotorState::Stopped | DcMotorState::Running => self.actual() as int,
            DcMotorState::Starting => {
                let s = ramp_speed(self.ramp_start(), self.ramp_end(), t, self.config_spec().soft_start_ms);
                if s >= self.target() {
                    self.target() as int
                } else {
                    s
                }
            },
            DcMotorState::Stopping => {
                let s = ramp_speed(self.ramp_start(), self.ramp_end(), t, self.config_spec().soft_stop_ms);
                if s == 0 || t >= self.config_spec().soft_stop_ms {
                    0
                } else {
                    s
                }
            },
        }
    }

    /// Whether an update by `delta_ms` stays within the ramp arithmetic:
    /// the ramp clock and its percentage of progress fit a `u32`, and a
    /// nonzero resulting speed is scaled with a minimum duty of at most
    /// 100%.
    pub open spec fn update_ok(&self, delta_ms: u32) -> bool {
        &&& (self.motor_state() == DcMotorState::Starting || self.motor_state()
            == DcMotorState::Stopping) ==> self.ramp_time() + delta_ms <= u32::MAX
        &&& (self.motor_state() == DcMotorState::Starting && self.config_spec().soft_start_ms != 0
            || self.motor_state() == DcMotorState::Stopping && self.config_spec().soft_stop_ms
            != 0) ==> (self.ramp_time() + delta_ms) * 100 <= u32::MAX
        &&& self.enabled() && self.next_actual(delta_ms) != 0 ==> self.config_spec().min_duty
            <= 100
    }

    /// Create a new DC motor driver: disabled, stopped, clockwise
    pub fn new(config: DcMotorConfig) -> (r: Self)
        ensures
            r.wf(),
            r.config_spec() == config,
            r.target() == 0,
            r.actual() == 0,
            r.direction() == Direction::Clockwise,
            !r.enabled(),
            r.motor_state() == DcMotorState::Stopped,
            r.ramp_time() == 0,
    {
        DcMotor {
            config,
            target_speed: 0,
            actual_speed: 0,
            direction: Direction::Clockwise,
            enabled: false,
            state: DcMotorState::Stopped,
            ramp_time_ms: 0,
            ramp_start_speed: 0,
            ramp_end_speed: 0,
        }
    }

    /// Get the current motor state
    pub fn state(&self) -> (r: DcMotorState)
        ensures
            r == self.motor_state(),
    {
        self.state
    }

    /// Get the configuration
    pub fn config(&self) -> (r: &DcMotorConfig)
        ensures
            *r == self.config_spec(),
    {
        &self.config
    }

    /// Check if direction control is available
    pub fn has_direction_control(&self) -> (r: bool)
        ensures
            r == self.config_spec().has_direction,
    {
        self.config.has_direction
    }

    /// Get the direction pin state (true = forward/CW)
    pub fn direction_pin_state(&self) -> (r: bool)
        ensures
            r == (self.direction() == Direction::Clockwise),
    {
        self.direction == Direction::Clockwise
    }

    /// Get the enable pin state (true = enabled and turning)
    pub fn enable_pin_state(&self) -> (r: bool)
        ensures
            r == (self.enabled() && self.actual() > 0),
    {
        self.enabled && self.actual_speed > 0
    }

    /// Scale the speed percentage to actual duty cycle
    fn scale_duty(&self, speed: u8) -> (r: u8)
        requires
            speed <= 100,
            speed > 0 ==> self.config.min_duty <= 100,
        ensures
            r == scaled_duty(self.config.min_duty, speed),
    {
        if speed == 0 {
            0
        } else {
            let min = self.config.min_duty as u32;
            let range = 100 - min;
            assert(speed * range <= 10000) by (nonlinear_arith)
                requires
                    speed <= 100,
                    range <= 100,
            ;
            let scaled = min + (speed as u32 * range / 100);
            if scaled < 100 {
                scaled as u8
            } else {
                100
            }
        }
    }

    /// Calculate the ramped speed for the current time
    fn calculate_ramp_speed(&self, ramp_time_total_ms: u16) -> (r: u8)
        requires
            ramp_time_total_ms != 0 ==> self.ramp_time_ms * 100 <= u32::MAX,
        ensures
            r == ramp_speed(
                self.ramp_start_speed,
                self.ramp_end_speed,
                self.ramp_time_ms as int,
                ramp_time_total_ms,
            ),
    {
        if ramp_time_total_ms == 0 {
            return self.ramp_end_speed;
        }
        let progress = (self.ramp_time_ms * 100) / ramp_time_total_ms as u32;
        let progress = if progress < 100 {
            progress as u8
        } else {
            100u8
        };

        if self.ramp_start_speed < self.ramp_end_speed {
            let delta = self.ramp_end_speed - self.ramp_start_speed;
            assert(delta * progress / 100 <= delta) by (nonlinear_arith)
                requires
                    progress <= 100,
            ;
            self.ramp_start_speed + (delta as u32 * progress as u32 / 100) as u8
        } else {
            let delta = self.ramp_start_speed - self.ramp_end_speed;
            assert(delta * progress / 100 <= delta) by (nonlinear_arith)
                requires
                    progress <= 100,
            ;
            self.ramp_start_speed - (delta as u32 * progress as u32 / 100) as u8
        }
    }

    /// Start the ramp to a new target speed
    fn start_ramp(&mut self, target: u8)
        ensures
            final(self).ramp_start_speed == old(self).actual_speed,
            final(self).ramp_end_speed == target,
            final(self).ramp_time_ms == 0,
            final(self).config == old(self).config,
            final(self).target_speed == old(self).target_speed,
            final(self).actual_speed == old(self).actual_speed,
            final(self).direction == old(self).direction,
            final(self).enabled == old(self).enabled,
            final(self).state == old(self).state,
    {
        self.ramp_start_speed = self.actual_speed;
        self.ramp_end_speed = target;
        self.ramp_time_ms = 0;
    }

    /// Update for a specific time delta (in ms); returns the duty cycle to
    /// apply.
    pub fn update_with_delta(&mut self, delta_ms: u32) -> (r: u8)
        requires
            old(self).wf(),
            old(self).update_ok(delta_ms),
        ensures
            final(self).wf(),
            r == scaled_duty(final(self).config_spec().min_duty, final(self).actual()),
            final(self).config_spec() == old(self).config_spec(),
            final(self).target() == old(self).target(),
            final(self).direction() == old(self).direction(),
            final(self).enabled() == old(self).enabled(),
            !old(self).enabled() ==> final(self).actual() == 0 && final(self).motor_state()
                == DcMotorState::Stopped && r == 0,
            old(self).enabled() && old(self).motor_state() == DcMotorState::Stopped ==> final(self).actual() == old(self).actual() && final(self).motor_state()
                == DcMotorState::Stopped,
            old(self).enabled() && old(self).motor_state() == DcMotorState::Starting ==> ({
                let t = old(self).ramp_time() + delta_ms;
                let s = ramp_speed(
                    old(self).ramp_start(),
                    old(self).ramp_end(),
                    t,
                    old(self).config_spec().soft_start_ms,
                );
                &&& final(self).ramp_time() == t
                &&& s >= old(self).target() ==> final(self).actual() == old(self).target()
                    && final(self).motor_state() == DcMotorState::Running
                &&& s < old(self).target() ==> final(self).actual() == s && final(self).motor_state() == DcMotorState::Starting
            }),
            old(self).enabled() && old(self).motor_state() == DcMotorState::Running ==> {
                &&& final(self).actual() == old(self).actual()
                &&& old(self).target() == 0 ==> final(self).motor_state()
                    == DcMotorState::Stopping && final(self).ramp_start() == old(self).actual()
                    && final(self).ramp_end() == 0 && final(self).ramp_time() == 0
                &&& old(self).target() != 0 && old(self).actual() != old(self).target() ==> final(self).ramp_start() == old(self).actual() && final(self).ramp_end() == old(self).target() && final(self).ramp_time() == 0 && final(self).motor_state() == (if old(self).target() > old(self).actual() {
                    DcMotorState::Starting
                } else {
                    DcMotorState::Stopping
                })
                &&& old(self).target() == old(self).actual() && old(self).target() != 0 ==> final(self).motor_state() == DcMotorState::Running
            },
            old(self).enabled() && old(self).motor_state() == DcMotorState::Stopping ==> ({
                let t = old(self).ramp_time() + delta_ms;
                let s = ramp_speed(
                    old(self).ramp_start(),
                    old(self).ramp_end(),
                    t,
                    old(self).config_spec().soft_stop_ms,
                );
                &&& final(self).ramp_time() == t
                &&& (s == 0 || t >= old(self).config_spec().soft_stop_ms) ==> final(self).actual() == 0 && final(self).motor_state() == DcMotorState::Stopped
                &&& !(s == 0 || t >= old(self).config_spec().soft_stop_ms) ==> final(self).actual() == s && final(self).motor_state() == DcMotorState::Stopping
            }),
    {
        if !self.enabled {
            self.actual_speed = 0;
            self.state = DcMotorState::Stopped;
            return 0;
        }
        match self.state {
            DcMotorState::Stopped => {},
            DcMotorState::Starting => {
                self.ramp_time_ms = self.ramp_time_ms + delta_ms;
                proof {
                    lemma_ramp_bounds(
                        self.ramp_start_speed,
                        self.ramp_end_speed,
                        self.ramp_time_ms as int,
                        self.config.soft_start_ms,
                    );
                }
                self.actual_speed = self.calculate_ramp_speed(self.config.soft_start_ms);

                if self.actual_speed >= self.target_speed {
                    self.actual_speed = self.target_speed;
                    self.state = DcMotorState::Running;
                }
            },
            DcMotorState::Running => {
                if self.target_speed == 0 {
                    // Start stopping
                    self.start_ramp(0);
                    self.state = DcMotorState::Stopping;
                } else if self.actual_speed != self.target_speed {
                    // Speed changed while running - start new ramp
                    self.start_ramp(self.target_speed);
                    if self.target_speed > self.actual_speed {
                        self.state = DcMotorState::Starting;
                    } else {
                        self.state = DcMotorState::Stopping;
                    }
                }
            },
            DcMotorState::Stopping => {
                self.ramp_time_ms = self.ramp_time_ms + delta_ms;
                proof {
                    lemma_ramp_bounds(
                        self.ramp_start_speed,
                        self.ramp_end_speed,
                        self.ramp_time_ms as int,
                        self.config.soft_stop_ms,
                    );
                }
                self.actual_speed = self.calculate_ramp_speed(self.config.soft_stop_ms);

                if self.actual_speed == 0 {
                    self.state = DcMotorState::Stopped;
                } else if self.ramp_time_ms >= self.config.soft_stop_ms as u32 {
                    self.actual_speed = 0;
                    self.state = DcMotorState::Stopped;
                }
            },
        }

        self.scale_duty(self.actual_speed)
    }
}

impl MotorDriver for DcMotor {
    open spec fn running(&self) -> bool {
        self.motor_state() != DcMotorState::Stopped
    }

    /// Change direction; only takes effect while stopped
    fn set_direction(&mut self, dir: Direction)
        ensures
            final(self).direction() == if old(self).motor_state() == DcMotorState::Stopped {
                dir
            } else {
                old(self).direction()
            },
            final(self).wf() == old(self).wf(),
            final(self).config_spec() == old(self).config_spec(),
            final(self).target() == old(self).target(),
            final(self).actual() == old(self).actual(),
            final(self).enabled() == old(self).enabled(),
            final(self).motor_state() == old(self).motor_state(),
            final(self).ramp_time() == old(self).ramp_time(),
    {
        if self.state == DcMotorState::Stopped {
            self.direction = dir;
        }
    }

    fn get_direction(&self) -> (r: Direction)
        ensures
            r == self.direction(),
    {
        self.direction
    }

    /// Enable or disable; disabling stops the motor at once
    fn enable(&mut self, enabled: bool)
        ensures
            final(self).enabled() == enabled,
            old(self).wf() ==> final(self).wf(),
            !enabled ==> final(self).target() == 0 && final(self).actual() == 0 && final(self).motor_state() == DcMotorState::Stopped,
            enabled ==> final(self).target() == old(self).target() && final(self).actual() == old(self).actual() && final(self).motor_state() == old(self).motor_state(),
            final(self).config_spec() == old(self).config_spec(),
            final(self).direction() == old(self).direction(),
            final(self).ramp_time() == old(self).ramp_time(),
    {
        self.enabled = enabled;
        if !enabled {
            self.target_speed = 0;
            self.actual_speed = 0;
            self.state = DcMotorState::Stopped;
        }
    }

    fn is_enabled(&self) -> (r: bool)
        ensures
            r == self.enabled(),
    {
        self.enabled
    }

    /// Start ramping up to the target speed: an error when disabled or when
    /// the target speed is 0; a motor that is not stopped keeps its state
    fn start(&mut self) -> (r: Result<(), MotorError>)
        ensures
            !old(self).enabled() ==> r == Err::<(), MotorError>(MotorError::Disabled),
            old(self).enabled() && old(self).target() == 0 ==> r == Err::<(), MotorError>(
                MotorError::InvalidSpeed,
            ),
            old(self).enabled() && old(self).target() != 0 ==> r is Ok,
            r is Ok && old(self).motor_state() == DcMotorState::Stopped ==> final(self).motor_state() == DcMotorState::Starting && final(self).ramp_start() == old(self).actual() && final(self).ramp_end() == old(self).target() && final(self).ramp_time()
                == 0,
            !(r is Ok && old(self).motor_state() == DcMotorState::Stopped) ==> final(self).motor_state() == old(self).motor_state() && final(self).ramp_time() == old(self).ramp_time()
                && final(self).ramp_start() == old(self).ramp_start() && final(self).ramp_end() == old(self).ramp_end(),
            old(self).wf() ==> final(self).wf(),
            final(self).config_spec() == old(self).config_spec(),
            final(self).target() == old(self).target(),
            final(self).actual() == old(self).actual(),
            final(self).enabled() == old(self).enabled(),
            final(self).direction() == old(self).direction(),
    {
        if !self.enabled {
            return Err(MotorError::Disabled);
        }
        if self.target_speed == 0 {
            return Err(MotorError::InvalidSpeed);
        }
        if self.state == DcMotorState::Stopped {
            self.start_ramp(self.target_speed);
            self.state = DcMotorState::Starting;
        }
        Ok(())
    }

    /// Begin ramping down to a stop, with target speed 0
    fn stop(&mut self)
        ensures
            old(self).motor_state() != DcMotorState::Stopped ==> final(self).target() == 0
                && final(self).motor_state() == DcMotorState::Stopping && final(self).ramp_start()
                == old(self).actual() && final(self).ramp_end() == 0 && final(self).ramp_time()
                == 0,
            old(self).motor_state() == DcMotorState::Stopped ==> final(self).target() == old(self).target() && final(self).motor_state() == DcMotorState::Stopped && final(self).ramp_time() == old(self).ramp_time(),
            old(self).wf() ==> final(self).wf(),
            final(self).config_spec() == old(self).config_spec(),
            final(self).actual() == old(self).actual(),
            final(self).enabled() == old(self).enabled(),
            final(self).direction() == old(self).direction(),
    {
        if self.state != DcMotorState::Stopped {
            self.target_speed = 0;
            self.start_ramp(0);
            self.state = DcMotorState::Stopping;
        }
    }

    fn is_running(&self) -> (r: bool)
        ensures
            r == (self.motor_state() != DcMotorState::Stopped),
    {
        match self.state {
            DcMotorState::Starting | DcMotorState::Running | DcMotorState::Stopping => true,
            DcMotorState::Stopped => false,
        }
    }

    fn is_stopped(&self) -> (r: bool)
        ensures
            r == (self.motor_state() == DcMotorState::Stopped),
    {
        self.state == DcMotorState::Stopped
    }
}

impl DcMotorDriver for DcMotor {
    /// One millisecond of ramp must stay within the ramp arithmetic.
    open spec fn update_allowed(&self) -> bool {
        self.wf() && self.update_ok(1)
    }

    open spec fn speed_setting(&self) -> u8 {
        self.target()
    }

    open spec fn speed_now(&self) -> u8 {
        self.actual()
    }

    /// Set the target speed, capped at 100%; a running motor ramps to it on
    /// the next update
    fn set_speed(&mut self, percent: u8)
        ensures
            final(self).target() == if percent < 100 {
                percent
            } else {
                100
            },
            old(self).wf() ==> final(self).wf(),
            final(self).config_spec() == old(self).config_spec(),
            final(self).actual() == old(self).actual(),
            final(self).enabled() == old(self).enabled(),
            final(self).direction() == old(self).direction(),
            final(self).motor_state() == old(self).motor_state(),
            final(self).ramp_time() == old(self).ramp_time(),
            final(self).ramp_start() == old(self).ramp_start(),
            final(self).ramp_end() == old(self).ramp_end(),
    {
        self.target_speed = if percent < 100 {
            percent
        } else {
            100
        };
    }

    fn get_speed(&self) -> (r: u8)
        ensures
            r == self.target(),
    {
        self.target_speed
    }

    fn get_actual_speed(&self) -> (r: u8)
        ensures
            r == self.actual(),
    {
        self.actual_speed
    }

    fn is_at_speed(&self) -> (r: bool)
        ensures
            r == (self.actual() == self.target()),
    {
        self.actual_speed == self.target_speed
    }

    /// One update with the default 1ms interval
    fn update(&mut self) -> (r: u8)
        ensures
            final(self).wf(),
            r == scaled_duty(final(self).config_spec().min_duty, final(self).actual()),
            final(self).config_spec() == old(self).config_spec(),
            final(self).target() == old(self).target(),
            final(self).direction() == old(self).direction(),
            final(self).enabled() == old(self).enabled(),
            !old(self).enabled() ==> final(self).actual() == 0 && final(self).motor_state()
                == DcMotorState::Stopped && r == 0,
    {
        self.update_with_delta(1)
    }
}

/// Duty scaling maps 0% to off and 100% to full power, and any nonzero
/// speed to at least the minimum duty and at most 100%.
pub proof fn lemma_duty_scaling(min_duty: u8, speed: u8)
    requires
        min_duty <= 100,
        speed <= 100,
    ensures
        scaled_duty(min_duty, 0) == 0,
        scaled_duty(min_duty, 100) == 100,
        speed > 0 ==> min_duty <= scaled_duty(min_duty, speed) <= 100,
{
    assert(speed * (100 - min_duty) / 100 <= 100 - min_duty) by (nonlinear_arith)
        requires
            speed <= 100,
            min_duty <= 100,
    ;
    assert(100 * (100 - min_duty) / 100 == 100 - min_duty) by (nonlinear_arith)
        requires
            min_duty <= 100,
    ;
}

/// A ramp stays between its start and end speed, and reaches its end once
/// the ramp time has elapsed.
pub proof fn lemma_ramp_bounds(start: u8, end: u8, elapsed_ms: int, total_ms: u16)
    requires
        elapsed_ms >= 0,
    ensures
        start <= end ==> start <= ramp_speed(start, end, elapsed_ms, total_ms) <= end,
        start >= end ==> end <= ramp_speed(start, end, elapsed_ms, total_ms) <= start,
        elapsed_ms >= total_ms ==> ramp_speed(start, end, elapsed_ms, total_ms) == end,
{
    if total_ms != 0 {
        let p = if elapsed_ms * 100 / (total_ms as int) < 100 {
            elapsed_ms * 100 / (total_ms as int)
        } else {
            100
        };
        assert(0 <= elapsed_ms * 100 / (total_ms as int)) by (nonlinear_arith)
            requires
                elapsed_ms >= 0,
                total_ms > 0,
        ;
        assert(elapsed_ms >= total_ms ==> elapsed_ms * 100 / (total_ms as int) >= 100) by (
        nonlinear_arith)
            requires
                total_ms > 0,
        ;
        if start < end {
            assert((end - start) * p / 100 <= end - start) by (nonlinear_arith)
                requires
                    0 <= p <= 100,
                    start < end,
            ;
            assert(0 <= (end - start) * p / 100) by (nonlinear_arith)
                requires
                    0 <= p <= 100,
                    start < end,
            ;
        } else {
            assert((start - end) * p / 100 <= start - end) by (nonlinear_arith)
                requires
                    0 <= p <= 100,
                    start >= end,
            ;
            assert(0 <= (start - end) * p / 100) by (nonlinear_arith)
                requires
                    0 <= p <= 100,
                    start >= end,
            ;
        }
    }
}

} // verus!
