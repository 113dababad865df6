//! ADC channel management.
//!
//! The RP2040 has a single ADC with 5 channels: ADC0-ADC3 on GPIO26-GPIO29
//! and ADC4 on the internal temperature sensor.

use vstd::prelude::*;

verus! {

/// ADC channel identifier
#[derive(Debug, Clone, Copy, PartialEq, Eq, Structural)]
pub enum AdcChannel {
    /// ADC0 on GPIO26
    Adc0,
    /// ADC1 on GPIO27
    Adc1,
    /// ADC2 on GPIO28
    Adc2,
    /// ADC3 on GPIO29
    Adc3,
    /// Internal temperature sensor
    Temperature,
}

/// The channel's number, 0-4.
pub open spec fn channel_index(c: AdcChannel) -> int {
    match c {
        AdcChannel::Adc0 => 0,
        AdcChannel::Adc1 => 1,
        AdcChannel::Adc2 => 2,
        AdcChannel::Adc3 => 3,
        AdcChannel::Temperature => 4,
    }
}

/// The channel's number, 0-4.
fn channel_number(c: AdcChannel) -> (r: usize)
    ensures
        r == channel_index(c),
{
    match c {
        AdcChannel::Adc0 => 0,
        AdcChannel::Adc1 => 1,
        AdcChannel::Adc2 => 2,
        AdcChannel::Adc3 => 3,
        AdcChannel::Temperature => 4,
    }
}

impl AdcChannel {
    /// Get the GPIO pin for this ADC channel
    pub fn gpio(&self) -> (r: Option<u8>)
        ensures
            *self == AdcChannel::Temperature ==> r is None,
            *self != AdcChannel::Temperature ==> r == Some((26 + channel_index(*self)) as u8),
    {
        match self {
            AdcChannel::Adc0 => Some(26),
            AdcChannel::Adc1 => Some(27),
            AdcChannel::Adc2 => Some(28),
            AdcChannel::Adc3 => Some(29),
            AdcChannel::Temperature => None,
        }
    }

    /// Get ADC channel from GPIO pin
    pub fn from_gpio(gpio: u8) -> (r: Option<Self>)
        ensures
            r is Some <==> 26 <= gpio <= 29,
            r matches Some(c) ==> channel_index(c) == gpio - 26,
    {
        match gpio {
            26 => Some(AdcChannel::Adc0),
            27 => Some(AdcChannel::Adc1),
            28 => Some(AdcChannel::Adc2),
            29 => Some(AdcChannel::Adc3),
            _ => None,
        }
    }
}

/// Channels and GPIO pins correspond one to one: distinct channels have
/// distinct numbers, and each channel but the temperature sensor sits on
/// GPIO 26 plus its number, which `from_gpio` maps back to it.
pub proof fn lemma_gpio_round_trip(c: AdcChannel, d: AdcChannel)
    ensures
        channel_index(c) == channel_index(d) ==> c == d,
        c != AdcChannel::Temperature <==> channel_index(c) < 4,
{
}

/// ADC allocator: which of the five channels are in use
pub struct AdcAllocator {
    allocated: [bool; 5],
}

impl AdcAllocator {
    /// Whether a channel is allocated.
    pub closed spec fn is_allocated_spec(&self, c: AdcChannel) -> bool {
        self.allocated@[channel_index(c)]
    }

    /// Create a new ADC allocator with every channel free
    pub fn new() -> (r: Self)
        ensures
            forall|c: AdcChannel| !r.is_allocated_spec(c),
    {
        AdcAllocator { allocated: [false; 5] }
    }

    /// Allocate an ADC channel; an error if it is already allocated
    pub fn allocate(&mut self, channel: AdcChannel) -> (r: Result<(), ()>)
        ensures
            r is Ok <==> !old(self).is_allocated_spec(channel),
            final(self).is_allocated_spec(channel),
            forall|c: AdcChannel| c != channel ==> final(self).is_allocated_spec(c) == old(
                self,
            ).is_allocated_spec(c),
    {
        let idx = channel_number(channel);
        if self.allocated[idx] {
            Err(())
        } else {
            self.allocated[idx] = true;
            Ok(())
        }
    }

    /// Release an ADC channel
    pub fn release(&mut self, channel: AdcChannel)
        ensures
            !final(self).is_allocated_spec(channel),
            forall|c: AdcChannel| c != channel ==> final(self).is_allocated_spec(c) == old(
                self,
            ).is_allocated_spec(c),
    {
        let idx = channel_number(channel);
        self.allocated[idx] = false;
    }

    /// Check if a channel is allocated
    pub fn is_allocated(&self, channel: AdcChannel) -> (r: bool)
        ensures
            r == self.is_allocated_spec(channel),
    {
        self.allocated[channel_number(channel)]
    }
}

impl Default for AdcAllocator {
    fn default() -> (r: Self)
        ensures
            forall|c: AdcChannel| !r.is_allocated_spec(c),
    {
        Self::new()
    }
}

} // verus!
