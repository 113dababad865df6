//! Rotary encoder decoding: a state machine over the two quadrature
//! signals that rejects bounce and reports whole detents.
//!
//! The caller samples the encoder's A and B inputs (every 1-5 ms) and hands
//! the levels to `Encoder::step`; presses of the encoder's button are
//! classified by `button_event`.

use vstd::prelude::*;

use crate::traits::display::InputEvent;

verus! {

/// Decoder state
#[derive(Debug, Clone, Copy, PartialEq, Eq, Structural)]
pub enum EncoderState {
    Idle,
    CwStep1,
    CwStep2,
    CcwStep1,
    CcwStep2,
}

/// One decoder transition on new levels of A and B.
///
/// Clockwise, A leads: from idle, A falling first enters `CwStep1`, both
/// low enters `CwStep2`, and either rising again completes a clockwise
/// detent. Counter-clockwise, B leads, symmetrically. Both high in a first
/// step is bounce and returns to idle.
pub open spec fn decode_spec(s: EncoderState, a: bool, b: bool) -> (EncoderState, Option<InputEvent>) {
    match s {
        EncoderState::Idle => if !a && b {
            (EncoderState::CwStep1, None)
        } else if a && !b {
            (EncoderState::CcwStep1, None)
        } else {
            (s, None)
        },
        EncoderState::CwStep1 => if !a && !b {
            (EncoderState::CwStep2, None)
        } else if a && b {
            (EncoderState::Idle, None)
        } else {
            (s, None)
        },
        EncoderState::CwStep2 => if a || b {
            (EncoderState::Idle, Some(InputEvent::EncoderCw))
        } else {
            (s, None)
        },
        EncoderState::CcwStep1 => if !a && !b {
            (EncoderState::CcwStep2, None)
        } else if a && b {
            (EncoderState::Idle, None)
        } else {
            (s, None)
        },
        EncoderState::CcwStep2 => if a || b {
            (EncoderState::Idle, Some(InputEvent::EncoderCcw))
        } else {
            (s, None)
        },
    }
}

/// Quadrature encoder with its two input pins
pub struct Encoder<P> {
    a: P,
    b: P,
    state: EncoderState,
    last_a: bool,
    last_b: bool,
}

impl<P> Encoder<P> {
    /// Decoder state.
    pub closed spec fn state_spec(&self) -> EncoderState {
        self.state
    }

    /// The A and B inputs.
    pub closed spec fn pins_spec(&self) -> (P, P) {
        (self.a, self.b)
    }

    /// Levels of A and B at the last sample.
    pub closed spec fn last_levels(&self) -> (bool, bool) {
        (self.last_a, self.last_b)
    }

    /// A decoder at rest, with the inputs' current levels
    pub fn new(a: P, b: P, a_high: bool, b_high: bool) -> (r: Self)
        ensures
            r.state_spec() == EncoderState::Idle,
            r.last_levels() == (a_high, b_high),
            r.pins_spec() == (a, b),
    {
        Encoder { a, b, state: EncoderState::Idle, last_a: a_high, last_b: b_high }
    }

    /// The A and B inputs
    pub fn pins(&self) -> (r: (&P, &P))
        ensures
            (*r.0, *r.1) == self.pins_spec(),
    {
        (&self.a, &self.b)
    }

    /// The A and B inputs, for sampling
    pub fn pins_mut(&mut self) -> (r: (&mut P, &mut P))
        ensures
            (*r.0, *r.1) == old(self).pins_spec(),
            final(self).pins_spec() == (*final(r.0), *final(r.1)),
            final(self).state_spec() == old(self).state_spec(),
            final(self).last_levels() == old(self).last_levels(),
    {
        (&mut self.a, &mut self.b)
    }

    /// Process one sample of the inputs: unchanged levels give nothing;
    /// otherwise the decoder steps (see `decode_spec`) and the levels are
    /// remembered.
    pub fn step(&mut self, a: bool, b: bool) -> (r: Option<InputEvent>)
        ensures
            old(self).last_levels() == (a, b) ==> r is None && final(self).state_spec() == old(
                self,
            ).state_spec() && final(self).last_levels() == old(self).last_levels(),
            old(self).last_levels() != (a, b) ==> (final(self).state_spec(), r) == decode_spec(
                old(self).state_spec(),
                a,
                b,
            ) && final(self).last_levels() == (a, b),
    {
        if a == self.last_a && b == self.last_b {
            return None;
        }
        let event = self.decode(a, b);
        self.last_a = a;
        self.last_b = b;
        event
    }

    /// Decode one transition (see `decode_spec`)
    fn decode(&mut self, a: bool, b: bool) -> (r: Option<InputEvent>)
        ensures
            (final(self).state_spec(), r) == decode_spec(old(self).state_spec(), a, b),
            final(self).last_levels() == old(self).last_levels(),
    {
        match self.state {
            EncoderState::Idle => {
                if !a && b {
                    self.state = EncoderState::CwStep1;
                } else if a && !b {
                    self.state = EncoderState::CcwStep1;
                }
                None
            },
            EncoderState::CwStep1 => {
                if !a && !b {
                    self.state = EncoderState::CwStep2;
                } else if a && b {
                    self.state = EncoderState::Idle;
                }
                None
            },
            EncoderState::CwStep2 => {
                if a || b {
                    self.state = EncoderState::Idle;
                    return Some(InputEvent::EncoderCw);
                }
                None
            },
            EncoderState::CcwStep1 => {
                if !a && !b {
                    self.state = EncoderState::CcwStep2;
                } else if a && b {
                    self.state = EncoderState::Idle;
                }
                None
            },
            EncoderState::CcwStep2 => {
                if a || b {
                    self.state = EncoderState::Idle;
                    return Some(InputEvent::EncoderCcw);
                }
                None
            },
        }
    }
}

/// Shortest press that counts as a click (ms)
pub const CLICK_MIN_MS: u64 = 50;

/// Hold time that makes a long press (ms)
pub const LONG_PRESS_MS: u64 = 500;

/// Debounce time after the button goes down (ms)
pub const DEBOUNCE_MS: u64 = 20;

/// The event of one press of the encoder button: nothing when it was
/// already up again after the debounce time; a long press when it was
/// still down at the long-press timeout; otherwise a click if it was held
/// for more than `CLICK_MIN_MS`, else nothing.
pub open spec fn button_event_spec(down_after_debounce: bool, released_before_timeout: bool, held_ms: u64) -> Option<
    InputEvent,
> {
    if !down_after_debounce {
        None
    } else if !released_before_timeout {
        Some(InputEvent::EncoderLongPress)
    } else if held_ms > CLICK_MIN_MS {
        Some(InputEvent::EncoderClick)
    } else {
        None
    }
}

/// A press still down at the long-press timeout is a long press; a press
/// released before it is never a long press, and is a click exactly when
/// it was held longer than `CLICK_MIN_MS`; a press gone by the end of the
/// debounce time is nothing.
pub proof fn lemma_button_press_kinds(down_after_debounce: bool, released_before_timeout: bool, held_ms: u64)
    ensures
        down_after_debounce && !released_before_timeout ==> button_event_spec(
            down_after_debounce,
            released_before_timeout,
            held_ms,
        ) == Some(InputEvent::EncoderLongPress),
        released_before_timeout ==> button_event_spec(down_after_debounce, released_before_timeout, held_ms)
            != Some(InputEvent::EncoderLongPress),
        down_after_debounce && released_before_timeout ==> (button_event_spec(
            down_after_debounce,
            released_before_timeout,
            held_ms,
        ) == Some(InputEvent::EncoderClick) <==> held_ms > 50),
        !down_after_debounce ==> button_event_spec(down_after_debounce, released_before_timeout, held_ms) is None,
{
}

/// Classify a press of the encoder button (see `button_event_spec`)
pub fn button_event(down_after_debounce: bool, released_before_timeout: bool, held_ms: u64) -> (r: Option<InputEvent>)
    ensures
        r == button_event_spec(down_after_debounce, released_before_timeout, held_ms),
{
    if !down_after_debounce {
        None
    } else if !released_before_timeout {
        Some(InputEvent::EncoderLongPress)
    } else if held_ms > CLICK_MIN_MS {
        Some(InputEvent::EncoderClick)
    } else {
        None
    }
}

/// One full clockwise detent, A leading (high-high, A low, both low, back
/// high), reports exactly one clockwise step and returns to rest; the same
/// with B leading reports one counter-clockwise step.
pub proof fn lemma_full_detent()
    ensures
        ({
            let (s1, e1) = decode_spec(EncoderState::Idle, false, true);
            let (s2, e2) = decode_spec(s1, false, false);
            let (s3, e3) = decode_spec(s2, true, true);
            &&& e1 is None && e2 is None
            &&& e3 == Some(InputEvent::EncoderCw)
            &&& s3 == EncoderState::Idle
        }),
        ({
            let (s1, e1) = decode_spec(EncoderState::Idle, true, false);
            let (s2, e2) = decode_spec(s1, false, false);
            let (s3, e3) = decode_spec(s2, true, true);
            &&& e1 is None && e2 is None
            &&& e3 == Some(InputEvent::EncoderCcw)
            &&& s3 == EncoderState::Idle
        }),
{
}

/// Bounce rejection: from a first step, returning to both-high goes back
/// to rest without an event, and no transition reports an event unless it
/// completes a detent from a second step.
pub proof fn lemma_events_only_from_second_step(s: EncoderState, a: bool, b: bool)
    ensures
        decode_spec(s, a, b).1 is Some ==> (s == EncoderState::CwStep2 || s == EncoderState::CcwStep2),
        (s == EncoderState::CwStep1 || s == EncoderState::CcwStep1) && a && b ==> decode_spec(s, a, b)
            == (EncoderState::Idle, None::<InputEvent>),
{
}

} // verus!
