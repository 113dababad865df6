//! Tests of scheduler segment.

use isochron::scheduler::segment::{generate_segments, DirectionMode};
use isochron::traits::stepper::Direction;

#[test]
fn test_single_direction() {
    let segments = generate_segments(120, 180, DirectionMode::Clockwise, 0).unwrap();

    assert_eq!(segments.len(), 1);
    assert_eq!(segments[0].direction, Direction::Clockwise);
    assert_eq!(segments[0].duration_s, 180);
    assert_eq!(segments[0].rpm, 120);
}

#[test]
fn test_alternate_direction() {
    let segments = generate_segments(120, 180, DirectionMode::Alternate, 3).unwrap();

    // 3 iterations * 2 segments = 6 segments
    assert_eq!(segments.len(), 6);

    // Each segment is 180 / 6 = 30 seconds
    assert_eq!(segments[0].duration_s, 30);

    // Directions alternate
    assert_eq!(segments[0].direction, Direction::Clockwise);
    assert_eq!(segments[1].direction, Direction::CounterClockwise);
    assert_eq!(segments[2].direction, Direction::Clockwise);
}

#[test]
fn test_alternate_zero_iterations() {
    let result = generate_segments(120, 180, DirectionMode::Alternate, 0);
    assert!(result.is_none());
}

#[test]
fn test_segment_too_short() {
    // 60 seconds / 8 segments = 7.5 seconds < MIN_SEGMENT_DURATION_S
    let result = generate_segments(120, 60, DirectionMode::Alternate, 4);
    assert!(result.is_none());
}
