//! Tests of motion planner.

use isochron::motion::planner::{MotionPlanner, MotionState};

#[test]
fn planner_test_initial_state() {
    let planner = MotionPlanner::new();
    assert_eq!(planner.get_current(), 0);
    assert_eq!(planner.get_state(), MotionState::Stopped);
    assert!(planner.is_stopped());
}

#[test]
fn test_acceleration() {
    let mut planner = MotionPlanner::with_acceleration(100); // 100 RPM/s
    planner.set_target(100);

    assert_eq!(planner.get_state(), MotionState::Accelerating);

    // After 500ms, should be at 50 RPM
    planner.update(500);
    assert_eq!(planner.get_current(), 50);

    // After another 500ms, should be at 100 RPM
    planner.update(500);
    assert_eq!(planner.get_current(), 100);
    assert_eq!(planner.get_state(), MotionState::AtSpeed);
}

#[test]
fn test_deceleration() {
    let mut planner = MotionPlanner::with_acceleration(100);
    planner.set_target(100);
    planner.update(1000); // Get to 100 RPM
    assert_eq!(planner.get_current(), 100);

    // Start decelerating
    planner.set_target(0);
    assert_eq!(planner.get_state(), MotionState::Decelerating);

    // After 500ms, should be at 50 RPM
    planner.update(500);
    assert_eq!(planner.get_current(), 50);

    // After another 500ms, should be stopped
    planner.update(500);
    assert_eq!(planner.get_current(), 0);
    assert!(planner.is_stopped());
}

#[test]
fn test_emergency_stop() {
    let mut planner = MotionPlanner::new();
    planner.set_target(100);
    planner.update(500);
    assert!(planner.get_current() > 0);

    planner.emergency_stop();
    assert_eq!(planner.get_current(), 0);
    assert!(planner.is_stopped());
}

#[test]
fn test_time_to_target() {
    let planner = MotionPlanner::with_acceleration(100);
    // 0 to 100 RPM at 100 RPM/s = 1000ms
    assert_eq!(planner.time_to_target(), 0); // Already at target (0)

    let mut planner = MotionPlanner::with_acceleration(100);
    planner.set_target(100);
    // Should take ~1000ms to reach target
    assert_eq!(planner.time_to_target(), 1000);
}
