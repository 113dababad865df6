//! GPIO heater output: heater control using a GPIO pin (directly or via an
//! SSR/MOSFET).

use vstd::prelude::*;

use crate::traits::heater::HeaterOutput;

verus! {

/// Trait for GPIO pin abstraction
pub trait OutputPin {
    /// Whether the pin is set high: the level it was last driven to. A
    /// verified implementation defines it over its own state; the default,
    /// an unspecified value, lets implementations outside Verus leave it out.
    open spec fn level_high(&self) -> bool {
        arbitrary()
    }

    /// Set the pin high
    fn set_high(&mut self)
        ensures
            final(self).level_high(),
    ;

    /// Set the pin low
    fn set_low(&mut self)
        ensures
            !final(self).level_high(),
    ;

    /// Check if the pin is set high
    fn is_set_high(&self) -> (r: bool)
        ensures
            r == self.level_high(),
    ;
}

/// GPIO heater output
///
/// Controls a heater via a GPIO pin. The pin can be configured as
/// active-high (default) or active-low.
pub struct GpioHeater<P> {
    pin: P,
    /// If true, heater ON = pin LOW
    inverted: bool,
    /// Current logical state (true = heater on)
    on: bool,
}

impl<P: OutputPin> GpioHeater<P> {
    /// The pin.
    pub closed spec fn pin_spec(&self) -> P {
        self.pin
    }

    /// Whether the heater is on when the pin is low.
    pub closed spec fn inverted(&self) -> bool {
        self.inverted
    }

    /// Whether the heater is on.
    pub closed spec fn on(&self) -> bool {
        self.on
    }

    /// The level the pin was last driven to.
    pub open spec fn pin_driven_high(&self) -> bool {
        self.pin_spec().level_high()
    }

    /// Create a new GPIO heater output, off; `inverted` makes the heater on
    /// when the pin is low (for active-low SSRs)
    pub fn new(pin: P, inverted: bool) -> (r: Self)
        ensures
            !r.on(),
            r.inverted() == inverted,
            r.pin_driven_high() == inverted,
    {
        let mut heater = GpioHeater { pin, inverted, on: false };
        heater.set_on(false);
        heater
    }

    /// Create a new GPIO heater with active-high output
    pub fn new_active_high(pin: P) -> (r: Self)
        ensures
            !r.on(),
            !r.inverted(),
            !r.pin_driven_high(),
    {
        Self::new(pin, false)
    }

    /// Create a new GPIO heater with active-low output
    pub fn new_active_low(pin: P) -> (r: Self)
        ensures
            !r.on(),
            r.inverted(),
            r.pin_driven_high(),
    {
        Self::new(pin, true)
    }

    /// Get access to the pin
    pub fn pin(&self) -> (r: &P)
        ensures
            *r == self.pin_spec(),
    {
        &self.pin
    }
}

impl<P: OutputPin> HeaterOutput for GpioHeater<P> {
    open spec fn on_spec(&self) -> bool {
        self.on()
    }

    /// Switch the heater: the pin is high exactly when `on` differs from
    /// the inversion setting
    fn set_on(&mut self, on: bool)
        ensures
            final(self).on() == on,
            final(self).inverted() == old(self).inverted(),
            final(self).pin_driven_high() == (on != old(self).inverted()),
    {
        self.on = on;

        if on != self.inverted {
            self.pin.set_high();
        } else {
            self.pin.set_low();
        }
    }

    fn is_on(&self) -> (r: bool)
        ensures
            r == self.on(),
    {
        self.on
    }
}

} // verus!
