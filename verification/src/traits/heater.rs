//! Heater and temperature sensor traits.

use vstd::prelude::*;

use crate::math::div_toward_zero;

verus! {

/// Errors that can occur with temperature sensing
#[derive(Debug, Clone, Copy, PartialEq, Eq, Structural)]
pub enum SensorError {
    /// Sensor disconnected (open circuit)
    OpenCircuit,
    /// Sensor shorted to ground
    ShortCircuit,
    /// Reading out of expected range
    OutOfRange,
    /// ADC conversion error
    ConversionError,
}

/// A reading in tenths of a degree cut to whole degrees, as Rust's integer
/// division does (toward zero); an error stays the same error.
pub open spec fn whole_degrees(reading_x10: Result<i16, SensorError>) -> Result<i16, SensorError> {
    match reading_x10 {
        Ok(t) => Ok(div_toward_zero(t as int, 10) as i16),
        Err(e) => Err(e),
    }
}

/// Trait for temperature sensors
///
/// Implementations handle the specific sensor type (NTC thermistor,
/// thermocouple, PT100, etc.)
pub trait TemperatureSensor {
    /// Read the current temperature in tenths of a degree Celsius
    /// (45.5°C is returned as 455).
    fn read_celsius_x10(&mut self) -> Result<i16, SensorError>;

    /// Read the current temperature in whole degrees Celsius: a reading in
    /// tenths, cut to whole degrees
    fn read_celsius(&mut self) -> (r: Result<i16, SensorError>)
        ensures
            exists|reading_x10: Result<i16, SensorError>| #[trigger] whole_degrees(reading_x10) == r,
    {
        let reading = self.read_celsius_x10();
        let r = match reading {
            Ok(t) => Ok(t / 10),
            Err(e) => Err(e),
        };
        assert(whole_degrees(reading) == r);
        r
    }

    /// Check if the sensor reading is valid
    fn is_valid(&mut self) -> bool {
        self.read_celsius_x10().is_ok()
    }
}

/// Trait for heater output control
///
/// Implementations control the heater element via GPIO, PWM, or SSR.
pub trait HeaterOutput {
    /// Whether the heater is switched on, as `is_on` reports it. A verified
    /// implementation defines it over its own state; the default, an
    /// unspecified value, lets implementations outside Verus leave it out.
    open spec fn on_spec(&self) -> bool {
        arbitrary()
    }

    /// Turn the heater on or off
    fn set_on(&mut self, on: bool)
        ensures
            final(self).on_spec() == on,
    ;

    /// Check if the heater is currently on
    fn is_on(&self) -> (r: bool)
        ensures
            r == self.on_spec(),
    ;
}

/// Combined heater controller with temperature feedback
pub trait HeaterController {
    /// Whether the controller's configuration lets `update` run: an
    /// implementation states here what its control loop needs.
    spec fn update_allowed(&self) -> bool;

    /// Set the target temperature in degrees Celsius
    fn set_target(&mut self, target_c: i16);

    /// Get the current target temperature
    fn get_target(&self) -> i16;

    /// Get the current actual temperature
    fn get_current(&mut self) -> Result<i16, SensorError>;

    /// Enable or disable the heater controller; when disabled the heater
    /// output is forced off
    fn enable(&mut self, enabled: bool);

    /// Check if the controller is enabled
    fn is_enabled(&self) -> bool;

    /// Check if the heater is currently at target temperature
    fn is_at_target(&self) -> bool;

    /// Update the control loop; call periodically (e.g., every 100ms)
    fn update(&mut self) -> Result<(), SensorError>
        requires
            old(self).update_allowed(),
    ;
}

} // verus!
