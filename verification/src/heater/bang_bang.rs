//! Bang-bang heater controller: on/off control with hysteresis.

use vstd::prelude::*;

use crate::math::{div_toward_zero, wabs16, wadd16, wmul16, wrapping_abs_i16, wsub16};
use crate::traits::heater::{whole_degrees, HeaterController, HeaterOutput, SensorError, TemperatureSensor};

verus! {

/// Bang-bang controller configuration
#[derive(Debug, Clone)]
pub struct BangBangConfig {
    /// Maximum allowed temperature (°C × 10)
    pub max_temp_x10: i16,
    /// Hysteresis (°C × 10)
    pub hysteresis_x10: i16,
}

impl Default for BangBangConfig {
    fn default() -> (r: Self)
        ensures
            r.max_temp_x10 == 550,
            r.hysteresis_x10 == 20,
    {
        BangBangConfig { max_temp_x10: 550, hysteresis_x10: 20 }
    }
}

/// Whether the heater is on after one control step at `temp_x10`: off at or
/// above the maximum temperature, on below the lower threshold, off above
/// the upper threshold, and unchanged within the hysteresis band.
pub open spec fn bang_bang_on(
    was_on: bool,
    temp_x10: i16,
    target_x10: i16,
    config: BangBangConfig,
) -> bool {
    if temp_x10 >= config.max_temp_x10 {
        false
    } else if temp_x10 < wsub16(target_x10, config.hysteresis_x10) {
        true
    } else if temp_x10 > wadd16(target_x10, config.hysteresis_x10) {
        false
    } else {
        was_on
    }
}

/// Whether one control step at `temp_x10` switches the heater, on or off:
/// at or above the maximum temperature, or outside the hysteresis band.
pub open spec fn bang_bang_switches(temp_x10: i16, target_x10: i16, config: BangBangConfig) -> bool {
    temp_x10 >= config.max_temp_x10 || temp_x10 < wsub16(target_x10, config.hysteresis_x10)
        || temp_x10 > wadd16(target_x10, config.hysteresis_x10)
}

/// Bang-bang heater controller
///
/// Turns heater on when temperature drops below (target - hysteresis),
/// and off when temperature rises above (target + hysteresis).
pub struct BangBangController<S, H> {
    sensor: S,
    heater: H,
    config: BangBangConfig,
    target_x10: i16,
    enabled: bool,
    heater_on: bool,
    last_temp_x10: Option<i16>,
}

impl<S: TemperatureSensor, H: HeaterOutput> BangBangController<S, H> {
    /// The configuration.
    pub closed spec fn config_spec(&self) -> BangBangConfig {
        self.config
    }

    /// The target temperature in tenths of a degree.
    pub closed spec fn target_x10(&self) -> i16 {
        self.target_x10
    }

    /// Whether the controller is enabled.
    pub closed spec fn enabled(&self) -> bool {
        self.enabled
    }

    /// Whether the controller has last commanded the heater on.
    pub closed spec fn heater_commanded_on(&self) -> bool {
        self.heater_on
    }

    /// The last successful temperature reading.
    pub closed spec fn last_temp_x10(&self) -> Option<i16> {
        self.last_temp_x10
    }

    /// The underlying sensor.
    pub closed spec fn sensor_spec(&self) -> S {
        self.sensor
    }

    /// The underlying heater output.
    pub closed spec fn heater_spec(&self) -> H {
        self.heater
    }

    /// Create a new bang-bang controller, disabled, with target 0
    pub fn new(sensor: S, heater: H, config: BangBangConfig) -> (r: Self)
        ensures
            r.config_spec() == config,
            r.sensor_spec() == sensor,
            r.heater_spec() == heater,
            r.target_x10() == 0,
            !r.enabled(),
            !r.heater_commanded_on(),
            r.last_temp_x10() is None,
    {
        BangBangController {
            sensor,
            heater,
            config,
            target_x10: 0,
            enabled: false,
            heater_on: false,
            last_temp_x10: None,
        }
    }

    /// Get access to the underlying sensor
    pub fn sensor(&self) -> (r: &S)
        ensures
            *r == self.sensor_spec(),
    {
        &self.sensor
    }

    /// Get access to the underlying heater
    pub fn heater(&self) -> (r: &H)
        ensures
            *r == self.heater_spec(),
    {
        &self.heater
    }

    /// One control step on a reading, from `self` to `after`, returning
    /// `r`: the reading is recorded and, when enabled, the heater switched
    /// by `bang_bang_on`; a failed reading is returned unchanged and changes
    /// nothing.
    pub open spec fn update_step(self, after: Self, reading: Result<i16, SensorError>, r: Result<(), SensorError>) -> bool {
        &&& r == (match reading {
            Ok(_) => Ok(()),
            Err(e) => Err(e),
        })
        &&& after.config_spec() == self.config_spec()
        &&& after.target_x10() == self.target_x10()
        &&& after.enabled() == self.enabled()
        &&& reading is Err ==> after.last_temp_x10() == self.last_temp_x10()
            && after.heater_commanded_on() == self.heater_commanded_on()
        &&& reading is Ok ==> after.last_temp_x10() == Some(reading->Ok_0)
        &&& reading is Ok && !self.enabled() ==> after.heater_commanded_on()
            == self.heater_commanded_on()
        &&& reading is Ok && self.enabled() ==> after.heater_commanded_on() == bang_bang_on(
            self.heater_commanded_on(),
            reading->Ok_0,
            self.target_x10(),
            self.config_spec(),
        )
        &&& reading is Err || !self.enabled() ==> after.heater_spec() == self.heater_spec()
        &&& reading is Ok && self.enabled() ==> if bang_bang_switches(
            reading->Ok_0,
            self.target_x10(),
            self.config_spec(),
        ) {
            after.heater_spec().on_spec() == after.heater_commanded_on()
        } else {
            after.heater_spec() == self.heater_spec()
        }
    }

    /// Run one control step on a temperature reading: record the reading
    /// and, when enabled, switch the heater by `bang_bang_on`. A failed
    /// reading is returned unchanged and changes nothing.
    pub fn update_with_reading(&mut self, reading: Result<i16, SensorError>) -> (r: Result<
        (),
        SensorError,
    >)
        ensures
            old(self).update_step(*final(self), reading, r),
    {
        let temp_x10 = match reading {
            Ok(t) => t,
            Err(e) => {
                return Err(e);
            },
        };
        self.last_temp_x10 = Some(temp_x10);

        if !self.enabled {
            return Ok(());
        }
        // Safety check: never exceed max temperature

        if temp_x10 >= self.config.max_temp_x10 {
            self.heater.set_on(false);
            self.heater_on = false;
            return Ok(());
        }
        // Bang-bang control with hysteresis

        let low_threshold = self.target_x10.wrapping_sub(self.config.hysteresis_x10);
        let high_threshold = self.target_x10.wrapping_add(self.config.hysteresis_x10);

        if temp_x10 < low_threshold {
            self.heater.set_on(true);
            self.heater_on = true;
        } else if temp_x10 > high_threshold {
            self.heater.set_on(false);
            self.heater_on = false;
        }
        // Otherwise, maintain current state (hysteresis band)

        Ok(())
    }
}

impl<S: TemperatureSensor, H: HeaterOutput> HeaterController for BangBangController<S, H> {
    /// The bang-bang loop runs in every configuration.
    open spec fn update_allowed(&self) -> bool {
        true
    }

    /// Set the target in tenths of a degree, limited to the maximum
    fn set_target(&mut self, target_c: i16)
        ensures
            final(self).target_x10() == if wmul16(target_c, 10) > old(self).config_spec().max_temp_x10 {
                old(self).config_spec().max_temp_x10
            } else {
                wmul16(target_c, 10)
            },
            final(self).config_spec() == old(self).config_spec(),
            final(self).enabled() == old(self).enabled(),
            final(self).heater_commanded_on() == old(self).heater_commanded_on(),
            final(self).last_temp_x10() == old(self).last_temp_x10(),
            final(self).heater_spec() == old(self).heater_spec(),
    {
        self.target_x10 = target_c.wrapping_mul(10);
        if self.target_x10 > self.config.max_temp_x10 {
            self.target_x10 = self.config.max_temp_x10;
        }
    }

    fn get_target(&self) -> (r: i16)
        ensures
            r == div_toward_zero(self.target_x10() as int, 10),
    {
        self.target_x10 / 10
    }

    /// Read the sensor in whole degrees; only the sensor changes
    fn get_current(&mut self) -> (r: Result<i16, SensorError>)
        ensures
            exists|reading_x10: Result<i16, SensorError>| #[trigger] whole_degrees(reading_x10) == r,
            final(self).config_spec() == old(self).config_spec(),
            final(self).target_x10() == old(self).target_x10(),
            final(self).enabled() == old(self).enabled(),
            final(self).heater_commanded_on() == old(self).heater_commanded_on(),
            final(self).last_temp_x10() == old(self).last_temp_x10(),
            final(self).heater_spec() == old(self).heater_spec(),
    {
        self.sensor.read_celsius()
    }

    /// Enable or disable; disabling turns the heater off
    fn enable(&mut self, enabled: bool)
        ensures
            final(self).enabled() == enabled,
            !enabled ==> !final(self).heater_commanded_on(),
            enabled ==> final(self).heater_commanded_on() == old(self).heater_commanded_on(),
            final(self).config_spec() == old(self).config_spec(),
            final(self).target_x10() == old(self).target_x10(),
            final(self).last_temp_x10() == old(self).last_temp_x10(),
            !enabled ==> !final(self).heater_spec().on_spec(),
            enabled ==> final(self).heater_spec() == old(self).heater_spec(),
    {
        self.enabled = enabled;
        if !enabled {
            self.heater.set_on(false);
            self.heater_on = false;
        }
    }

    fn is_enabled(&self) -> (r: bool)
        ensures
            r == self.enabled(),
    {
        self.enabled
    }

    /// Within the hysteresis of the target at the last reading
    fn is_at_target(&self) -> (r: bool)
        ensures
            r == (self.last_temp_x10() is Some && wabs16(
                wsub16(self.last_temp_x10()->0, self.target_x10()),
            ) <= self.config_spec().hysteresis_x10),
    {
        if let Some(temp) = self.last_temp_x10 {
            let diff = wrapping_abs_i16(temp.wrapping_sub(self.target_x10));
            diff <= self.config.hysteresis_x10
        } else {
            false
        }
    }

    /// Read the sensor once and run one control step on what it gave
    /// (see `update_step`)
    fn update(&mut self) -> (r: Result<(), SensorError>)
        ensures
            exists|reading: Result<i16, SensorError>| #[trigger] old(self).update_step(*final(self), reading, r),
    {
        let reading = self.sensor.read_celsius_x10();
        let r = self.update_with_reading(reading);
        assert(old(self).update_step(*self, reading, r));
        r
    }
}

/// Over-temperature cutoff at the heater itself: an enabled step on a
/// reading at or above the maximum temperature switches the heater off.
pub proof fn lemma_update_cuts_heater_at_max<S: TemperatureSensor, H: HeaterOutput>(
    before: BangBangController<S, H>,
    after: BangBangController<S, H>,
    temp_x10: i16,
    r: Result<(), SensorError>,
)
    requires
        before.update_step(after, Ok(temp_x10), r),
        before.enabled(),
        temp_x10 >= before.config_spec().max_temp_x10,
    ensures
        !after.heater_spec().on_spec(),
        r == Ok::<(), SensorError>(()),
{
}

/// The heater is never left on at or above the maximum temperature, and
/// within the hysteresis band it keeps its previous state.
pub proof fn lemma_bang_bang_safety(was_on: bool, temp_x10: i16, target_x10: i16, config: BangBangConfig)
    ensures
        temp_x10 >= config.max_temp_x10 ==> !bang_bang_on(was_on, temp_x10, target_x10, config),
        temp_x10 < config.max_temp_x10 && wsub16(target_x10, config.hysteresis_x10) <= temp_x10
            <= wadd16(target_x10, config.hysteresis_x10) ==> bang_bang_on(
            was_on,
            temp_x10,
            target_x10,
            config,
        ) == was_on,
{
}

} // verus!
