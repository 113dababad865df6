//! Digital input and output pin traits, for chip-specific HALs to
//! implement.

use vstd::prelude::*;

verus! {

/// Digital output pin
pub trait OutputPin {
    /// Whether the pin is set high: the level it was last driven to.
    spec fn level_high(&self) -> bool;

    /// Set the pin high (logic 1)
    fn set_high(&mut self)
        ensures
            final(self).level_high(),
    ;

    /// Set the pin low (logic 0)
    fn set_low(&mut self)
        ensures
            !final(self).level_high(),
    ;

    /// Toggle the pin state
    fn toggle(&mut self)
        ensures
            final(self).level_high() == !old(self).level_high(),
    ;

    /// Set the pin to a specific state
    fn set_state(&mut self, high: bool)
        ensures
            final(self).level_high() == high,
    {
        if high {
            self.set_high();
        } else {
            self.set_low();
        }
    }

    /// Check if the pin is currently set high
    fn is_set_high(&self) -> (r: bool)
        ensures
            r == self.level_high(),
    ;

    /// Check if the pin is currently set low
    fn is_set_low(&self) -> (r: bool)
        ensures
            r == !self.level_high(),
    {
        !self.is_set_high()
    }
}

/// Digital input pin
pub trait InputPin {
    /// Check if the pin reads high (logic 1)
    fn is_high(&self) -> bool;

    /// Check if the pin reads low (logic 0)
    fn is_low(&self) -> bool {
        !self.is_high()
    }
}

/// Pin that can be used for both input and output
pub trait IoPin: OutputPin + InputPin {

}

impl<T: OutputPin + InputPin> IoPin for T {

}

} // verus!
