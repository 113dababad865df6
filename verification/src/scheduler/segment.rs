//! Execution segments generated from profiles.

use vstd::prelude::*;

use crate::bounded::{segment_list, segment_list_new, segment_list_push};
use crate::traits::stepper::Direction;

verus! {

/// A single execution segment: the atomic unit of execution, with a
/// direction and a duration. Direction changes happen between segments.
#[derive(Debug, Clone, Copy, PartialEq, Eq, Structural)]
pub struct Segment {
    /// Rotation direction
    pub direction: Direction,
    /// Duration in seconds
    pub duration_s: u16,
    /// Target RPM for this segment
    pub rpm: u16,
}

/// Spin-off configuration for a profile
#[derive(Debug, Clone, Copy, PartialEq, Eq, Structural)]
pub struct SpinOffConfig {
    /// Height to lift basket above jar (mm)
    pub lift_mm: u16,
    /// Spin speed during spin-off
    pub rpm: u16,
    /// Spin-off duration (seconds)
    pub time_s: u16,
}

/// Direction mode for profiles
#[derive(Debug, Clone, Copy, PartialEq, Eq, Structural, Default)]
pub enum DirectionMode {
    /// Continuous clockwise rotation
    #[default]
    Clockwise,
    /// Continuous counter-clockwise rotation
    CounterClockwise,
    /// Alternating direction
    Alternate,
}

/// Minimum segment duration in seconds
pub const MIN_SEGMENT_DURATION_S: u16 = 10;

/// Most segments a profile can be split into.
pub const MAX_PROFILE_SEGMENTS: usize = 16;

/// The direction of the `i`-th segment of an alternating profile.
pub open spec fn alternate_direction(i: int) -> Direction {
    if i % 2 == 0 {
        Direction::Clockwise
    } else {
        Direction::CounterClockwise
    }
}

/// The segments of a profile: one segment for the whole time in a fixed
/// direction, or `2 * iterations` equal segments of alternating direction
/// starting clockwise. `None` when there are no iterations, when a
/// segment would last less than `MIN_SEGMENT_DURATION_S`, or when there
/// would be more segments than fit in a list.
pub open spec fn segments_spec(rpm: u16, total_time_s: u16, direction: DirectionMode, iterations: u8)
    -> Option<Seq<Segment>> {
    match direction {
        DirectionMode::Clockwise => Some(
            seq![Segment { direction: Direction::Clockwise, duration_s: total_time_s, rpm }],
        ),
        DirectionMode::CounterClockwise => Some(
            seq![Segment { direction: Direction::CounterClockwise, duration_s: total_time_s, rpm }],
        ),
        DirectionMode::Alternate => {
            let n = 2 * iterations;
            let d = (total_time_s as int) / n;
            if iterations == 0 || d < MIN_SEGMENT_DURATION_S || n > MAX_PROFILE_SEGMENTS {
                None
            } else {
                Some(
                    Seq::new(
                        n as nat,
                        |i: int| Segment { direction: alternate_direction(i), duration_s: d as u16, rpm },
                    ),
                )
            }
        },
    }
}

/// A fixed direction mode turns the basket one way for the whole profile:
/// exactly one segment, in the mode's direction (clockwise mode clockwise,
/// counter-clockwise mode counter-clockwise), for the whole time at the
/// profile's speed, whatever the iteration count.
pub proof fn lemma_fixed_mode_one_segment(rpm: u16, total_time_s: u16, mode: DirectionMode, iterations: u8)
    requires
        mode != DirectionMode::Alternate,
    ensures
        ({
            let r = segments_spec(rpm, total_time_s, mode, iterations);
            &&& r is Some
            &&& r->0.len() == 1
            &&& mode == DirectionMode::Clockwise ==> r->0[0].direction == Direction::Clockwise
            &&& mode == DirectionMode::CounterClockwise ==> r->0[0].direction == Direction::CounterClockwise
            &&& r->0[0].duration_s == total_time_s
            &&& r->0[0].rpm == rpm
        }),
{
}

/// Generate the segments of a profile (see `segments_spec`).
pub fn generate_segments(rpm: u16, total_time_s: u16, direction: DirectionMode, iterations: u8) -> (r:
    Option<heapless::Vec<Segment, 16>>)
    ensures
        r is Some <==> segments_spec(rpm, total_time_s, direction, iterations) is Some,
        r is Some ==> segment_list(r->0) == segments_spec(rpm, total_time_s, direction, iterations)->0,
{
    let mut segments = segment_list_new();
    match direction {
        DirectionMode::Clockwise => {
            let s = Segment { direction: Direction::Clockwise, duration_s: total_time_s, rpm };
            match segment_list_push(&mut segments, s) {
                Ok(()) => {},
                Err(_) => {
                    return None;
                },
            }
            assert(segment_list(segments) =~= seq![s]);
        },
        DirectionMode::CounterClockwise => {
            let s = Segment { direction: Direction::CounterClockwise, duration_s: total_time_s, rpm };
            match segment_list_push(&mut segments, s) {
                Ok(()) => {},
                Err(_) => {
                    return None;
                },
            }
            assert(segment_list(segments) =~= seq![s]);
        },
        DirectionMode::Alternate => {
            if iterations == 0 {
                return None;
            }
            let num_segments: u16 = (iterations as u16) * 2;
            let segment_duration: u16 = total_time_s / num_segments;
            if segment_duration < MIN_SEGMENT_DURATION_S {
                return None;
            }
            let ghost expected = segments_spec(rpm, total_time_s, direction, iterations);
            let mut current_dir = Direction::Clockwise;
            let mut k: u16 = 0;
            while k < num_segments
                invariant
                    k <= num_segments,
                    k <= 16,
                    direction == DirectionMode::Alternate,
                    num_segments == 2 * iterations,
                    iterations > 0,
                    segment_duration == total_time_s / num_segments,
                    segment_list(segments).len() == k,
                    current_dir == alternate_direction(k as int),
                    forall|i: int|
                        0 <= i < k ==> #[trigger] segment_list(segments)[i] == (Segment {
                            direction: alternate_direction(i),
                            duration_s: segment_duration,
                            rpm,
                        }),
                decreases num_segments - k,
            {
                let s = Segment { direction: current_dir, duration_s: segment_duration, rpm };
                match segment_list_push(&mut segments, s) {
                    Ok(()) => {},
                    Err(_) => {
                        return None;
                    },
                }
                current_dir = current_dir.opposite();
                k = k + 1;
            }
            assert(segment_list(segments) =~= expected->0);
        },
    }
    Some(segments)
}

/// An alternating profile's segments split its time evenly and alternate
/// in direction: no two neighbouring segments turn the same way.
pub proof fn lemma_alternate_segments_alternate(rpm: u16, total_time_s: u16, iterations: u8, i: int)
    requires
        segments_spec(rpm, total_time_s, DirectionMode::Alternate, iterations) is Some,
        0 <= i,
        i + 1 < 2 * iterations,
    ensures
        ({
            let s = segments_spec(rpm, total_time_s, DirectionMode::Alternate, iterations)->0;
            &&& s.len() == 2 * iterations
            &&& s[i].direction != s[i + 1].direction
            &&& s[i].duration_s * (2 * iterations) <= total_time_s
            &&& s[0].direction == Direction::Clockwise
        }),
{
    let n = 2 * iterations;
    let d = (total_time_s as int) / n;
    assert(d * n <= total_time_s) by (nonlinear_arith)
        requires
            n > 0,
            d == (total_time_s as int) / n,
            total_time_s >= 0,
    ;
}

} // verus!
