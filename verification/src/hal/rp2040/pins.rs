//! Config-driven GPIO pin assignment: a bank that hands out the
//! controller's 30 GPIO pins by number, each at most once at a time.

use vstd::prelude::*;

verus! {

/// Error when requesting a pin
#[derive(Debug, Clone, Copy)]
pub enum PinError {
    /// Pin number out of range (0-29 valid)
    InvalidPin,
    /// Pin already taken
    AlreadyTaken,
    /// Pin reserved for special function
    Reserved,
}


/// Number of GPIO pins of the RP2040
pub const NUM_PINS: usize = 30;

/// The GPIO pins, each available until taken, for moving into a `PinBank`
pub struct PinBankPeripherals<P> {
    /// GPIO 0
    pub pin0: Option<P>,
    /// GPIO 1
    pub pin1: Option<P>,
    /// GPIO 2
    pub pin2: Option<P>,
    /// GPIO 3
    pub pin3: Option<P>,
    /// GPIO 4
    pub pin4: Option<P>,
    /// GPIO 5
    pub pin5: Option<P>,
    /// GPIO 6
    pub pin6: Option<P>,
    /// GPIO 7
    pub pin7: Option<P>,
    /// GPIO 8
    pub pin8: Option<P>,
    /// GPIO 9
    pub pin9: Option<P>,
    /// GPIO 10
    pub pin10: Option<P>,
    /// GPIO 11
    pub pin11: Option<P>,
    /// GPIO 12
    pub pin12: Option<P>,
    /// GPIO 13
    pub pin13: Option<P>,
    /// GPIO 14
    pub pin14: Option<P>,
    /// GPIO 15
    pub pin15: Option<P>,
    /// GPIO 16
    pub pin16: Option<P>,
    /// GPIO 17
    pub pin17: Option<P>,
    /// GPIO 18
    pub pin18: Option<P>,
    /// GPIO 19
    pub pin19: Option<P>,
    /// GPIO 20
    pub pin20: Option<P>,
    /// GPIO 21
    pub pin21: Option<P>,
    /// GPIO 22
    pub pin22: Option<P>,
    /// GPIO 23
    pub pin23: Option<P>,
    /// GPIO 24
    pub pin24: Option<P>,
    /// GPIO 25
    pub pin25: Option<P>,
    /// GPIO 26
    pub pin26: Option<P>,
    /// GPIO 27
    pub pin27: Option<P>,
    /// GPIO 28
    pub pin28: Option<P>,
    /// GPIO 29
    pub pin29: Option<P>,
}

/// A bank holding every GPIO pin, handing them out by number
pub struct PinBank<P> {
    pins: [Option<P>; 30],
}

impl<P> PinBank<P> {
    /// The pin in each slot, `None` once taken.
    pub closed spec fn slots(&self) -> Seq<Option<P>> {
        self.pins@
    }

    /// A bank holding all thirty pins, moved out of the peripherals
    pub fn new(p: &mut PinBankPeripherals<P>) -> (r: Self)
        requires
            old(p).pin0 is Some,
            old(p).pin1 is Some,
            old(p).pin2 is Some,
            old(p).pin3 is Some,
            old(p).pin4 is Some,
            old(p).pin5 is Some,
            old(p).pin6 is Some,
            old(p).pin7 is Some,
            old(p).pin8 is Some,
            old(p).pin9 is Some,
            old(p).pin10 is Some,
            old(p).pin11 is Some,
            old(p).pin12 is Some,
            old(p).pin13 is Some,
            old(p).pin14 is Some,
            old(p).pin15 is Some,
            old(p).pin16 is Some,
            old(p).pin17 is Some,
            old(p).pin18 is Some,
            old(p).pin19 is Some,
            old(p).pin20 is Some,
            old(p).pin21 is Some,
            old(p).pin22 is Some,
            old(p).pin23 is Some,
            old(p).pin24 is Some,
            old(p).pin25 is Some,
            old(p).pin26 is Some,
            old(p).pin27 is Some,
            old(p).pin28 is Some,
            old(p).pin29 is Some,
        ensures
            r.slots().len() == NUM_PINS,
            r.slots()[0] == Some(old(p).pin0->0),
            r.slots()[1] == Some(old(p).pin1->0),
            r.slots()[2] == Some(old(p).pin2->0),
            r.slots()[3] == Some(old(p).pin3->0),
            r.slots()[4] == Some(old(p).pin4->0),
            r.slots()[5] == Some(old(p).pin5->0),
            r.slots()[6] == Some(old(p).pin6->0),
            r.slots()[7] == Some(old(p).pin7->0),
            r.slots()[8] == Some(old(p).pin8->0),
            r.slots()[9] == Some(old(p).pin9->0),
            r.slots()[10] == Some(old(p).pin10->0),
            r.slots()[11] == Some(old(p).pin11->0),
            r.slots()[12] == Some(old(p).pin12->0),
            r.slots()[13] == Some(old(p).pin13->0),
            r.slots()[14] == Some(old(p).pin14->0),
            r.slots()[15] == Some(old(p).pin15->0),
            r.slots()[16] == Some(old(p).pin16->0),
            r.slots()[17] == Some(old(p).pin17->0),
            r.slots()[18] == Some(old(p).pin18->0),
            r.slots()[19] == Some(old(p).pin19->0),
            r.slots()[20] == Some(old(p).pin20->0),
            r.slots()[21] == Some(old(p).pin21->0),
            r.slots()[22] == Some(old(p).pin22->0),
            r.slots()[23] == Some(old(p).pin23->0),
            r.slots()[24] == Some(old(p).pin24->0),
            r.slots()[25] == Some(old(p).pin25->0),
            r.slots()[26] == Some(old(p).pin26->0),
            r.slots()[27] == Some(old(p).pin27->0),
            r.slots()[28] == Some(old(p).pin28->0),
            r.slots()[29] == Some(old(p).pin29->0),
            final(p).pin0 is None,
            final(p).pin1 is None,
            final(p).pin2 is None,
            final(p).pin3 is None,
            final(p).pin4 is None,
            final(p).pin5 is None,
            final(p).pin6 is None,
            final(p).pin7 is None,
            final(p).pin8 is None,
            final(p).pin9 is None,
            final(p).pin10 is None,
            final(p).pin11 is None,
            final(p).pin12 is None,
            final(p).pin13 is None,
            final(p).pin14 is None,
            final(p).pin15 is None,
            final(p).pin16 is None,
            final(p).pin17 is None,
            final(p).pin18 is None,
            final(p).pin19 is None,
            final(p).pin20 is None,
            final(p).pin21 is None,
            final(p).pin22 is None,
            final(p).pin23 is None,
            final(p).pin24 is None,
            final(p).pin25 is None,
            final(p).pin26 is None,
            final(p).pin27 is None,
            final(p).pin28 is None,
            final(p).pin29 is None,
    {
        PinBank {
            pins: [
                Some(p.pin0.take().unwrap()),
                Some(p.pin1.take().unwrap()),
                Some(p.pin2.take().unwrap()),
                Some(p.pin3.take().unwrap()),
                Some(p.pin4.take().unwrap()),
                Some(p.pin5.take().unwrap()),
                Some(p.pin6.take().unwrap()),
                Some(p.pin7.take().unwrap()),
                Some(p.pin8.take().unwrap()),
                Some(p.pin9.take().unwrap()),
                Some(p.pin10.take().unwrap()),
                Some(p.pin11.take().unwrap()),
                Some(p.pin12.take().unwrap()),
                Some(p.pin13.take().unwrap()),
                Some(p.pin14.take().unwrap()),
                Some(p.pin15.take().unwrap()),
                Some(p.pin16.take().unwrap()),
                Some(p.pin17.take().unwrap()),
                Some(p.pin18.take().unwrap()),
                Some(p.pin19.take().unwrap()),
                Some(p.pin20.take().unwrap()),
                Some(p.pin21.take().unwrap()),
                Some(p.pin22.take().unwrap()),
                Some(p.pin23.take().unwrap()),
                Some(p.pin24.take().unwrap()),
                Some(p.pin25.take().unwrap()),
                Some(p.pin26.take().unwrap()),
                Some(p.pin27.take().unwrap()),
                Some(p.pin28.take().unwrap()),
                Some(p.pin29.take().unwrap()),
            ],
        }
    }

    /// Take a pin by number: an error for a number of 30 or more, or for a
    /// pin already taken
    pub fn take(&mut self, pin_num: u8) -> (r: Result<P, PinError>)
        ensures
            final(self).slots().len() == old(self).slots().len(),
            pin_num >= NUM_PINS ==> r is Err && r->Err_0 == PinError::InvalidPin && final(self).slots()
                == old(self).slots(),
            pin_num < NUM_PINS && old(self).slots()[pin_num as int] is None ==> r is Err && r->Err_0
                == PinError::AlreadyTaken && final(self).slots() == old(self).slots(),
            pin_num < NUM_PINS && old(self).slots()[pin_num as int] is Some ==> r is Ok && r->Ok_0 == old(
                self,
            ).slots()[pin_num as int]->0 && final(self).slots() == old(self).slots().update(pin_num as int, None),
    {
        if pin_num as usize >= NUM_PINS {
            return Err(PinError::InvalidPin);
        }
        let idx = pin_num as usize;
        let mut slot: Option<P> = None;
        std::mem::swap(&mut slot, &mut self.pins[idx]);
        match slot {
            Some(pin) => Ok(pin),
            None => {
                proof {
                    assert(self.slots() =~= old(self).slots());
                }
                Err(PinError::AlreadyTaken)
            },
        }
    }

    /// Whether a pin is in the bank
    pub fn is_available(&self, pin_num: u8) -> (r: bool)
        ensures
            r == (pin_num < NUM_PINS && self.slots()[pin_num as int] is Some),
    {
        if pin_num as usize >= NUM_PINS {
            return false;
        }
        self.pins[pin_num as usize].is_some()
    }

    /// Put a pin back into the bank; numbers of 30 or more are ignored
    pub fn return_pin(&mut self, pin_num: u8, pin: P)
        ensures
            pin_num < NUM_PINS ==> final(self).slots() == old(self).slots().update(pin_num as int, Some(pin)),
            pin_num >= NUM_PINS ==> final(self).slots() == old(self).slots(),
    {
        if (pin_num as usize) < NUM_PINS {
            self.pins[pin_num as usize] = Some(pin);
        }
    }
}

/// Taking a pin and returning it restores the bank; a taken pin cannot be
/// taken again until it is returned.
pub proof fn lemma_take_return_round_trip<P>(slots: Seq<Option<P>>, i: int, pin: P)
    requires
        0 <= i < slots.len(),
        slots[i] == Some(pin),
    ensures
        slots.update(i, None).update(i, Some(pin)) == slots,
        slots.update(i, None)[i] is None,
{
    assert(slots.update(i, None).update(i, Some(pin)) =~= slots);
}

} // verus!
