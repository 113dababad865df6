//! Tests of state events.

use isochron::state::events::Event;
use isochron::state::machine::ErrorKind;

#[test]
fn test_user_events() {
    assert!(Event::Start.is_user_event());
    assert!(Event::Pause.is_user_event());
    assert!(Event::Abort.is_user_event());
    assert!(!Event::ProfileFinished.is_user_event());
    assert!(!Event::ErrorDetected(ErrorKind::MotorStall).is_user_event());
}

#[test]
fn test_scheduler_events() {
    assert!(Event::ProfileFinished.is_scheduler_event());
    assert!(Event::SpinOffFinished.is_scheduler_event());
    assert!(!Event::Start.is_scheduler_event());
}

#[test]
fn test_error_events() {
    assert!(Event::ErrorDetected(ErrorKind::OverTemperature).is_error_event());
    assert!(!Event::Abort.is_error_event());
}
