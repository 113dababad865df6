//! Tests of the rotary encoder decoder.

use isochron::display::encoder::Encoder;
use isochron::traits::display::InputEvent;

#[test]
fn clockwise_detent() {
    let mut enc = Encoder::new((), (), true, true);
    assert_eq!(enc.step(false, true), None);
    assert_eq!(enc.step(false, false), None);
    assert_eq!(enc.step(true, true), Some(InputEvent::EncoderCw));
    assert_eq!(enc.step(true, true), None);
}

#[test]
fn counter_clockwise_detent() {
    let mut enc = Encoder::new((), (), true, true);
    assert_eq!(enc.step(true, false), None);
    assert_eq!(enc.step(false, false), None);
    assert_eq!(enc.step(false, true), Some(InputEvent::EncoderCcw));
}

#[test]
fn bounce_is_rejected() {
    let mut enc = Encoder::new((), (), true, true);
    assert_eq!(enc.step(false, true), None);
    assert_eq!(enc.step(true, true), None);
    assert_eq!(enc.step(false, false), None);
    assert_eq!(enc.step(true, true), None);
}

#[test]
fn unchanged_levels_are_ignored() {
    let mut enc = Encoder::new((), (), false, true);
    assert_eq!(enc.step(false, true), None);
    assert_eq!(enc.step(false, false), None);
    assert_eq!(enc.step(true, false), None);
}
