//! PID heater controller.
//!
//! Implements proportional-integral-derivative control with
//! time-proportioning output for on/off heater control, in fixed-point
//! arithmetic for Cortex-M0 compatibility.

use vstd::prelude::*;

use crate::heater::fixed::{saturate_i32, wrap_i32, Fixed32};
use crate::math::{div_toward_zero, wabs16, wmul16, wrapping_abs_i16, wsub16};
use crate::traits::heater::{whole_degrees, HeaterController, HeaterOutput, SensorError, TemperatureSensor};

verus! {

/// PID coefficients, as Q16.16 numbers
#[derive(Debug, Clone, Copy, Default)]
pub struct PidCoefficients {
    /// Proportional gain (Kp)
    pub kp: Fixed32,
    /// Integral gain (Ki)
    pub ki: Fixed32,
    /// Derivative gain (Kd)
    pub kd: Fixed32,
}

impl PidCoefficients {
    /// Create coefficients from scaled integers (value × 100);
    /// Kp=1.5, Ki=0.1, Kd=0.5 are given as (150, 10, 50).
    pub fn from_scaled_100(kp_x100: i32, ki_x100: i32, kd_x100: i32) -> (r: Self)
        ensures
            r.kp.0 == div_toward_zero(wrap_i32(kp_x100 * 65536), 100),
            r.ki.0 == div_toward_zero(wrap_i32(ki_x100 * 65536), 100),
            r.kd.0 == div_toward_zero(wrap_i32(kd_x100 * 65536), 100),
    {
        PidCoefficients {
            kp: Fixed32::from_scaled_100(kp_x100),
            ki: Fixed32::from_scaled_100(ki_x100),
            kd: Fixed32::from_scaled_100(kd_x100),
        }
    }

    /// Create coefficients from scaled integers (value × 1000), with
    /// higher precision for small coefficients.
    pub fn from_scaled_1000(kp_x1000: i32, ki_x1000: i32, kd_x1000: i32) -> (r: Self)
        ensures
            r.kp.0 == div_toward_zero(wrap_i32(kp_x1000 * 65536), 1000),
            r.ki.0 == div_toward_zero(wrap_i32(ki_x1000 * 65536), 1000),
            r.kd.0 == div_toward_zero(wrap_i32(kd_x1000 * 65536), 1000),
    {
        PidCoefficients {
            kp: Fixed32::from_scaled_1000(kp_x1000),
            ki: Fixed32::from_scaled_1000(ki_x1000),
            kd: Fixed32::from_scaled_1000(kd_x1000),
        }
    }

    /// Check if any coefficient is non-zero
    pub fn is_configured(&self) -> (r: bool)
        ensures
            r == (self.kp.0 != 0 || self.ki.0 != 0 || self.kd.0 != 0),
    {
        !self.kp.is_zero() || !self.ki.is_zero() || !self.kd.is_zero()
    }
}

/// PID controller configuration
#[derive(Debug, Clone)]
pub struct PidConfig {
    /// PID coefficients
    pub coefficients: PidCoefficients,
    /// Maximum allowed temperature (°C × 10)
    pub max_temp_x10: i16,
    /// PWM period in control loop ticks; for a 500ms control loop, 20 ticks
    /// is a 10 second PWM period
    pub pwm_period_ticks: u8,
    /// Integral windup limit (°C × 10)
    pub integral_limit_x10: i16,
    /// Deadband around setpoint (°C × 10); smaller errors count as zero
    pub deadband_x10: i16,
}

impl Default for PidConfig {
    fn default() -> (r: Self)
        ensures
            r.coefficients.kp.0 == 0,
            r.coefficients.ki.0 == 0,
            r.coefficients.kd.0 == 0,
            r.max_temp_x10 == 550,
            r.pwm_period_ticks == 20,
            r.integral_limit_x10 == 200,
            r.deadband_x10 == 2,
    {
        PidConfig {
            coefficients: PidCoefficients {
                kp: Fixed32(0),
                ki: Fixed32(0),
                kd: Fixed32(0),
            },
            max_temp_x10: 550,
            pwm_period_ticks: 20,
            integral_limit_x10: 200,
            deadband_x10: 2,
        }
    }
}

/// PID controller internal state
#[derive(Debug, Clone, Default)]
struct PidState {
    /// Accumulated integral term
    integral: Fixed32,
    /// Previous error for derivative calculation
    prev_error_x10: i16,
    /// Current PWM duty cycle (0-255)
    duty: u8,
    /// Current position in PWM cycle
    pwm_tick: u8,
}

/// The control error with the deadband applied.
pub open spec fn deadband_error(target_x10: i16, temp_x10: i16, deadband_x10: i16) -> i16 {
    let e = wsub16(target_x10, temp_x10);
    if wabs16(e) <= deadband_x10 {
        0
    } else {
        e
    }
}

/// `x` limited to `lo..=hi`.
pub open spec fn clamp_int(x: int, lo: int, hi: int) -> int {
    if x < lo {
        lo
    } else if x > hi {
        hi
    } else {
        x
    }
}

/// Q16.16 product, truncated to 32 bits.
pub open spec fn fixed_mul(a: int, b: int) -> int {
    wrap_i32((a * b) / 65536)
}

/// The integral term after one more error sample: saturating accumulation
/// of Ki times the error, limited to plus or minus the windup limit.
pub open spec fn next_integral(integral: int, ki: int, error_x10: i16, limit_x10: i16) -> int {
    clamp_int(
        saturate_i32(integral + fixed_mul(ki, error_x10 * 65536)),
        -(limit_x10 * 65536),
        limit_x10 * 65536,
    )
}

/// The duty cycle (0-255) of the P, I and D terms: their saturating sum,
/// rounded down to a whole number and limited to 0..=255.
pub open spec fn pid_duty(p_term: int, integral: int, d_term: int) -> u8 {
    clamp_int(saturate_i32(saturate_i32(p_term + integral) + d_term) / 65536, 0, 255) as u8
}

/// The position in the PWM cycle after one more tick.
pub open spec fn next_pwm_tick(tick: u8, period: u8) -> u8 {
    ((tick + 1) % (period as int)) as u8
}

/// Whether the heater is on at PWM position `tick` with duty `duty`:
/// duty 0 is always off, and duty 255 is on at every position.
pub open spec fn pwm_on(duty: u8, tick: u8, period: u8) -> bool {
    duty > (tick * 255) / (period as int)
}

/// PID heater controller with time-proportioning output
///
/// Since the heater is on/off (not PWM capable), this controller uses
/// time-proportioning: the heater is turned on for a portion of each
/// PWM period proportional to the PID output.
pub struct PidController<S, H> {
    sensor: S,
    heater: H,
    config: PidConfig,
    target_x10: i16,
    enabled: bool,
    state: PidState,
    last_temp_x10: Option<i16>,
    heater_on: bool,
}

impl<S: TemperatureSensor, H: HeaterOutput> PidController<S, H> {
    /// The configuration.
    pub closed spec fn config_spec(&self) -> PidConfig {
        self.config
    }

    /// The target temperature in tenths of a degree.
    pub closed spec fn target_x10(&self) -> i16 {
        self.target_x10
    }

    /// Whether the controller is enabled.
    pub closed spec fn enabled(&self) -> bool {
        self.enabled
    }

    /// Whether the controller has last commanded the heater on.
    pub closed spec fn heater_commanded_on(&self) -> bool {
        self.heater_on
    }

    /// The last successful temperature reading.
    pub closed spec fn last_temp_x10(&self) -> Option<i16> {
        self.last_temp_x10
    }

    /// The raw Q16.16 value of the integral term.
    pub closed spec fn integral_raw(&self) -> int {
        self.state.integral.0 as int
    }

    /// The error of the previous control step.
    pub closed spec fn prev_error_x10(&self) -> i16 {
        self.state.prev_error_x10
    }

    /// The last computed duty cycle.
    pub closed spec fn duty_spec(&self) -> u8 {
        self.state.duty
    }

    /// The position in the PWM cycle.
    pub closed spec fn pwm_tick(&self) -> u8 {
        self.state.pwm_tick
    }

    /// The underlying sensor.
    pub closed spec fn sensor_spec(&self) -> S {
        self.sensor
    }

    /// The underlying heater output.
    pub closed spec fn heater_spec(&self) -> H {
        self.heater
    }

    /// The controller's invariant: the PWM position lies within the period.
    pub closed spec fn wf(&self) -> bool {
        self.state.pwm_tick == 0 || self.state.pwm_tick < self.config.pwm_period_ticks
    }

    /// Whether the control state is the initial one: no integral, no
    /// previous error, zero duty, start of the PWM cycle.
    pub closed spec fn state_is_reset(&self) -> bool {
        &&& self.state.integral.0 == 0
        &&& self.state.prev_error_x10 == 0
        &&& self.state.duty == 0
        &&& self.state.pwm_tick == 0
    }

    /// Anti-windup: with a nonnegative limit, the integral term lies within
    /// the configured limit (in Q16.16).
    pub open spec fn integral_within_limit(&self) -> bool {
        self.config_spec().integral_limit_x10 >= 0 ==> -(self.config_spec().integral_limit_x10
            * 65536) <= self.integral_raw() <= self.config_spec().integral_limit_x10 * 65536
    }

    /// Create a new PID controller, disabled, with target 0
    pub fn new(sensor: S, heater: H, config: PidConfig) -> (r: Self)
        ensures
            r.integral_within_limit(),
            r.wf(),
            r.config_spec() == config,
            r.sensor_spec() == sensor,
            r.heater_spec() == heater,
            r.target_x10() == 0,
            !r.enabled(),
            !r.heater_commanded_on(),
            r.last_temp_x10() is None,
            r.state_is_reset(),
    {
        PidController {
            sensor,
            heater,
            config,
            target_x10: 0,
            enabled: false,
            state: PidState { integral: Fixed32(0), prev_error_x10: 0, duty: 0, pwm_tick: 0 },
            last_temp_x10: None,
            heater_on: false,
        }
    }

    /// Update PID coefficients, resetting the internal state to prevent
    /// integral windup issues
    pub fn set_coefficients(&mut self, coefficients: PidCoefficients)
        ensures
            final(self).integral_within_limit(),
            final(self).wf(),
            final(self).config_spec() == (PidConfig { coefficients, ..old(self).config_spec() }),
            final(self).state_is_reset(),
            final(self).target_x10() == old(self).target_x10(),
            final(self).enabled() == old(self).enabled(),
            final(self).heater_commanded_on() == old(self).heater_commanded_on(),
            final(self).last_temp_x10() == old(self).last_temp_x10(),
    {
        self.config.coefficients = coefficients;
        self.reset_state();
    }

    /// Get current PID coefficients
    pub fn coefficients(&self) -> (r: &PidCoefficients)
        ensures
            *r == self.config_spec().coefficients,
    {
        &self.config.coefficients
    }

    /// Get current duty cycle (0-255)
    pub fn duty(&self) -> (r: u8)
        ensures
            r == self.duty_spec(),
    {
        self.state.duty
    }

    /// Get access to the underlying sensor
    pub fn sensor(&self) -> (r: &S)
        ensures
            *r == self.sensor_spec(),
    {
        &self.sensor
    }

    /// Get access to the underlying heater
    pub fn heater(&self) -> (r: &H)
        ensures
            *r == self.heater_spec(),
    {
        &self.heater
    }

    /// Reset internal PID state
    fn reset_state(&mut self)
        ensures
            final(self).state_is_reset(),
            final(self).config == old(self).config,
            final(self).target_x10 == old(self).target_x10,
            final(self).enabled == old(self).enabled,
            final(self).heater_on == old(self).heater_on,
            final(self).last_temp_x10 == old(self).last_temp_x10,
            final(self).heater == old(self).heater,
            final(self).sensor == old(self).sensor,
    {
        self.state = PidState { integral: Fixed32(0), prev_error_x10: 0, duty: 0, pwm_tick: 0 };
    }

    /// Calculate the PID output for a temperature reading, as a duty cycle
    /// 0-255
    fn calculate_output(&mut self, temp_x10: i16) -> (r: u8)
        requires
            old(self).config.integral_limit_x10 >= 0,
        ensures
            -(old(self).config.integral_limit_x10 * 65536) <= final(self).state.integral.0
                <= old(self).config.integral_limit_x10 * 65536,
            ({
                let c = old(self).config;
                let e = deadband_error(old(self).target_x10, temp_x10, c.deadband_x10);
                let i = next_integral(
                    old(self).state.integral.0 as int,
                    c.coefficients.ki.0 as int,
                    e,
                    c.integral_limit_x10,
                );
                &&& final(self).state.integral.0 == i
                &&& final(self).state.prev_error_x10 == e
                &&& r == pid_duty(
                    fixed_mul(c.coefficients.kp.0 as int, e * 65536),
                    i,
                    fixed_mul(
                        c.coefficients.kd.0 as int,
                        wsub16(e, old(self).state.prev_error_x10) * 65536,
                    ),
                )
            }),
            final(self).state.duty == old(self).state.duty,
            final(self).state.pwm_tick == old(self).state.pwm_tick,
            final(self).config == old(self).config,
            final(self).target_x10 == old(self).target_x10,
            final(self).enabled == old(self).enabled,
            final(self).heater_on == old(self).heater_on,
            final(self).last_temp_x10 == old(self).last_temp_x10,
            final(self).sensor == old(self).sensor,
            final(self).heater == old(self).heater,
    {
        let raw_error = self.target_x10.wrapping_sub(temp_x10);

        // Apply deadband
        let error_x10 = if wrapping_abs_i16(raw_error) <= self.config.deadband_x10 {
            0
        } else {
            raw_error
        };

        let error = Fixed32::from_int(error_x10);

        // Proportional term: P = Kp * error
        let p_term = self.config.coefficients.kp.mul(error);

        // Integral term: I += Ki * error, clamped against windup
        let i_contribution = self.config.coefficients.ki.mul(error);
        let integral = self.state.integral.saturating_add(i_contribution);
        let integral_limit = Fixed32::from_int(self.config.integral_limit_x10);
        let neg_limit = Fixed32(-integral_limit.0);
        let integral = integral.clamp(neg_limit, integral_limit);
        self.state.integral = integral;

        // Derivative term on the error (not the measurement), so that a
        // setpoint change gives no derivative kick: D = Kd * (error - prev)
        let d_error = error_x10.wrapping_sub(self.state.prev_error_x10);
        let d_term = self.config.coefficients.kd.mul(Fixed32::from_int(d_error));
        self.state.prev_error_x10 = error_x10;

        // Sum all terms; positive output means heating is needed
        let output = p_term.saturating_add(self.state.integral).saturating_add(d_term);

        let whole = output.to_int();
        if whole < 0 {
            0
        } else if whole > 255 {
            255
        } else {
            whole as u8
        }
    }

    /// Apply time-proportioning PWM: turn the heater on or off by the
    /// position in the PWM cycle and the duty cycle.
    fn apply_pwm(&mut self, duty: u8)
        requires
            old(self).config.pwm_period_ticks > 0,
            old(self).wf(),
        ensures
            final(self).wf(),
            final(self).state.pwm_tick == next_pwm_tick(
                old(self).state.pwm_tick,
                old(self).config.pwm_period_ticks,
            ),
            final(self).heater_on == pwm_on(
                duty,
                final(self).state.pwm_tick,
                old(self).config.pwm_period_ticks,
            ),
            final(self).state.integral == old(self).state.integral,
            final(self).state.prev_error_x10 == old(self).state.prev_error_x10,
            final(self).state.duty == old(self).state.duty,
            final(self).config == old(self).config,
            final(self).target_x10 == old(self).target_x10,
            final(self).enabled == old(self).enabled,
            final(self).last_temp_x10 == old(self).last_temp_x10,
            final(self).sensor == old(self).sensor,
            final(self).heater_on != old(self).heater_on ==> final(self).heater.on_spec()
                == final(self).heater_on,
            final(self).heater_on == old(self).heater_on ==> final(self).heater == old(self).heater,
    {
        self.state.pwm_tick = (self.state.pwm_tick + 1) % self.config.pwm_period_ticks;

        // duty=0 -> always off, duty=255 -> always on
        let threshold = (self.state.pwm_tick as u16 * 255) / self.config.pwm_period_ticks as u16;

        let should_be_on = (duty as u16) > threshold;

        if should_be_on != self.heater_on {
            self.heater.set_on(should_be_on);
            self.heater_on = should_be_on;
        }
    }

    /// One control step on a reading, from `self` to `after`, returning
    /// `r`: the reading is recorded; when enabled, the heater is forced off
    /// at or above the maximum temperature, and below it the PID duty is
    /// computed and applied to the PWM cycle. A failed reading is returned
    /// unchanged and changes nothing.
    pub open spec fn update_step(self, after: Self, reading: Result<i16, SensorError>, r: Result<(), SensorError>) -> bool {
        &&& r == (match reading {
            Ok(_) => Ok(()),
            Err(e) => Err(e),
        })
        &&& after.config_spec() == self.config_spec()
        &&& after.target_x10() == self.target_x10()
        &&& after.enabled() == self.enabled()
        &&& reading is Err ==> after.last_temp_x10() == self.last_temp_x10()
            && after.heater_commanded_on() == self.heater_commanded_on()
            && after.duty_spec() == self.duty_spec()
        &&& reading is Ok ==> after.last_temp_x10() == Some(reading->Ok_0)
        &&& reading is Ok && !self.enabled() ==> after.heater_commanded_on()
            == self.heater_commanded_on() && after.duty_spec() == self.duty_spec()
        &&& reading is Ok && self.enabled() && reading->Ok_0 >= self.config_spec().max_temp_x10
            ==> !after.heater_commanded_on() && after.duty_spec() == self.duty_spec()
            && after.integral_raw() == self.integral_raw()
            && !after.heater_spec().on_spec()
        &&& reading is Err || !self.enabled() ==> after.heater_spec() == self.heater_spec()
        &&& reading is Err || !self.enabled() || reading->Ok_0 >= self.config_spec().max_temp_x10
            ==> after.integral_raw() == self.integral_raw() && after.prev_error_x10()
            == self.prev_error_x10() && after.pwm_tick() == self.pwm_tick()
        &&& reading is Ok && self.enabled() && reading->Ok_0 < self.config_spec().max_temp_x10
            ==> ({
            let c = self.config_spec();
            let e = deadband_error(self.target_x10(), reading->Ok_0, c.deadband_x10);
            let i = next_integral(
                self.integral_raw(),
                c.coefficients.ki.0 as int,
                e,
                c.integral_limit_x10,
            );
            let duty = pid_duty(
                fixed_mul(c.coefficients.kp.0 as int, e * 65536),
                i,
                fixed_mul(
                    c.coefficients.kd.0 as int,
                    wsub16(e, self.prev_error_x10()) * 65536,
                ),
            );
            let tick = next_pwm_tick(self.pwm_tick(), c.pwm_period_ticks);
            &&& after.integral_raw() == i
            &&& after.prev_error_x10() == e
            &&& after.duty_spec() == duty
            &&& after.pwm_tick() == tick
            &&& after.heater_commanded_on() == pwm_on(duty, tick, c.pwm_period_ticks)
            &&& after.heater_commanded_on() != self.heater_commanded_on()
                ==> after.heater_spec().on_spec() == after.heater_commanded_on()
            &&& after.heater_commanded_on() == self.heater_commanded_on() ==> after.heater_spec()
                == self.heater_spec()
        })
    }

    /// Run one control step on a temperature reading: record the reading,
    /// and when enabled either force the heater off at or above the
    /// maximum temperature or compute the duty cycle and apply it to the
    /// PWM cycle. A failed reading is returned unchanged and changes
    /// nothing.
    pub fn update_with_reading(&mut self, reading: Result<i16, SensorError>) -> (r: Result<
        (),
        SensorError,
    >)
        requires
            old(self).update_allowed(),
        ensures
            old(self).integral_within_limit() ==> final(self).integral_within_limit(),
            final(self).wf(),
            old(self).update_step(*final(self), reading, r),
    {
        let temp_x10 = match reading {
            Ok(t) => t,
            Err(e) => {
                return Err(e);
            },
        };
        self.last_temp_x10 = Some(temp_x10);

        if !self.enabled {
            return Ok(());
        }
        // Safety check: never exceed max temperature

        if temp_x10 >= self.config.max_temp_x10 {
            self.heater.set_on(false);
            self.heater_on = false;
            // Don't reset integral - we might be oscillating around max
            return Ok(());
        }
        let duty = self.calculate_output(temp_x10);
        self.state.duty = duty;

        self.apply_pwm(duty);

        Ok(())
    }
}

impl<S: TemperatureSensor, H: HeaterOutput> HeaterController for PidController<S, H> {
    /// The control loop needs a nonzero PWM period and a nonnegative
    /// windup limit whenever the controller is enabled.
    open spec fn update_allowed(&self) -> bool {
        &&& self.wf()
        &&& self.enabled() ==> self.config_spec().pwm_period_ticks > 0
            && self.config_spec().integral_limit_x10 >= 0
    }

    /// Set the target, limited to the maximum temperature; a change of more
    /// than 2°C clears the integral term to prevent windup.
    fn set_target(&mut self, target_c: i16)
        ensures
            old(self).integral_within_limit() ==> final(self).integral_within_limit(),
            ({
                let t = wmul16(target_c, 10);
                let new_t = if t < old(self).config_spec().max_temp_x10 {
                    t
                } else {
                    old(self).config_spec().max_temp_x10
                };
                &&& final(self).target_x10() == new_t
                &&& wabs16(wsub16(new_t, old(self).target_x10())) > 20 ==> final(self).integral_raw() == 0
                &&& wabs16(wsub16(new_t, old(self).target_x10())) <= 20 ==> final(self).integral_raw() == old(self).integral_raw()
            }),
            final(self).wf() == old(self).wf(),
            final(self).config_spec() == old(self).config_spec(),
            final(self).enabled() == old(self).enabled(),
            final(self).heater_commanded_on() == old(self).heater_commanded_on(),
            final(self).last_temp_x10() == old(self).last_temp_x10(),
            final(self).prev_error_x10() == old(self).prev_error_x10(),
            final(self).duty_spec() == old(self).duty_spec(),
            final(self).pwm_tick() == old(self).pwm_tick(),
            final(self).heater_spec() == old(self).heater_spec(),
    {
        let t = target_c.wrapping_mul(10);
        let new_target_x10 = if t < self.config.max_temp_x10 {
            t
        } else {
            self.config.max_temp_x10
        };

        // Reset integral on a change of more than 2°C to prevent windup
        if wrapping_abs_i16(new_target_x10.wrapping_sub(self.target_x10)) > 20 {
            self.state.integral = Fixed32(0);
        }
        self.target_x10 = new_target_x10;
    }

    fn get_target(&self) -> (r: i16)
        ensures
            r == div_toward_zero(self.target_x10() as int, 10),
    {
        self.target_x10 / 10
    }

    /// Read the sensor in whole degrees; only the sensor changes
    fn get_current(&mut self) -> (r: Result<i16, SensorError>)
        ensures
            old(self).integral_within_limit() ==> final(self).integral_within_limit(),
            exists|reading_x10: Result<i16, SensorError>| #[trigger] whole_degrees(reading_x10) == r,
            final(self).wf() == old(self).wf(),
            final(self).config_spec() == old(self).config_spec(),
            final(self).target_x10() == old(self).target_x10(),
            final(self).enabled() == old(self).enabled(),
            final(self).heater_commanded_on() == old(self).heater_commanded_on(),
            final(self).last_temp_x10() == old(self).last_temp_x10(),
            final(self).integral_raw() == old(self).integral_raw(),
            final(self).prev_error_x10() == old(self).prev_error_x10(),
            final(self).duty_spec() == old(self).duty_spec(),
            final(self).pwm_tick() == old(self).pwm_tick(),
            final(self).heater_spec() == old(self).heater_spec(),
    {
        self.sensor.read_celsius()
    }

    /// Enable or disable; disabling turns the heater off and resets the
    /// control state
    fn enable(&mut self, enabled: bool)
        ensures
            old(self).integral_within_limit() ==> final(self).integral_within_limit(),
            final(self).enabled() == enabled,
            final(self).wf() == (old(self).wf() || !enabled),
            !enabled ==> !final(self).heater_commanded_on() && final(self).state_is_reset(),
            enabled ==> final(self).heater_commanded_on() == old(self).heater_commanded_on()
                && final(self).integral_raw() == old(self).integral_raw() && final(self).pwm_tick() == old(self).pwm_tick(),
            final(self).config_spec() == old(self).config_spec(),
            final(self).target_x10() == old(self).target_x10(),
            final(self).last_temp_x10() == old(self).last_temp_x10(),
            !enabled ==> !final(self).heater_spec().on_spec(),
            enabled ==> final(self).heater_spec() == old(self).heater_spec(),
    {
        self.enabled = enabled;
        if !enabled {
            self.heater.set_on(false);
            self.heater_on = false;
            self.reset_state();
        }
    }

    fn is_enabled(&self) -> (r: bool)
        ensures
            r == self.enabled(),
    {
        self.enabled
    }

    /// Within 1°C of the target at the last reading
    fn is_at_target(&self) -> (r: bool)
        ensures
            r == (self.last_temp_x10() is Some && wabs16(
                wsub16(self.last_temp_x10()->0, self.target_x10()),
            ) <= 10),
    {
        if let Some(temp) = self.last_temp_x10 {
            wrapping_abs_i16(temp.wrapping_sub(self.target_x10)) <= 10
        } else {
            false
        }
    }

    /// Read the sensor once and run one control step on what it gave
    /// (see `update_step`)
    fn update(&mut self) -> (r: Result<(), SensorError>)
        ensures
            old(self).integral_within_limit() ==> final(self).integral_within_limit(),
            final(self).wf(),
            exists|reading: Result<i16, SensorError>| #[trigger] old(self).update_step(*final(self), reading, r),
    {
        let reading = self.sensor.read_celsius_x10();
        let r = self.update_with_reading(reading);
        assert(old(self).update_step(*self, reading, r));
        r
    }
}

/// Anti-windup: a control step keeps the integral term within the
/// configured limit (in Q16.16) once it is within it.
pub proof fn lemma_integral_within_limit<S: TemperatureSensor, H: HeaterOutput>(
    before: PidController<S, H>,
    after: PidController<S, H>,
    reading: Result<i16, SensorError>,
    r: Result<(), SensorError>,
)
    requires
        before.update_step(after, reading, r),
        before.config_spec().integral_limit_x10 >= 0,
        -(before.config_spec().integral_limit_x10 * 65536) <= before.integral_raw()
            <= before.config_spec().integral_limit_x10 * 65536,
    ensures
        -(after.config_spec().integral_limit_x10 * 65536) <= after.integral_raw()
            <= after.config_spec().integral_limit_x10 * 65536,
{
}

/// Duty 0 keeps the heater off at every PWM position, and duty 255 keeps
/// it on at every position.
pub proof fn lemma_pwm_extremes(tick: u8, period: u8)
    requires
        period > 0,
        tick < period,
    ensures
        !pwm_on(0, tick, period),
        pwm_on(255, tick, period),
{
    assert((tick * 255) / (period as int) <= 254) by (nonlinear_arith)
        requires
            0 <= tick < period,
            period > 0,
    ;
}

} // verus!
