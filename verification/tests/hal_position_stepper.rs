//! Tests of position tracking and homing.

use isochron::hal::rp2040::position_stepper::{
    PositionError, PositionState, PositionStepper, PositionStepperConfig, StepperCommand,
};

fn homed_stepper() -> PositionStepper {
    let mut s = PositionStepper::new(PositionStepperConfig::default());
    s.start_homing().unwrap();
    // Active-low endstop: a low level means triggered.
    assert_eq!(s.update(10, 0, false, true, 800), Ok(false));
    // Retract 5 mm at 10 mm/s (800 Hz at 80 steps/mm) takes 500 ms.
    assert_eq!(s.update(500, 500, true, true, 800), Ok(true));
    s.take_commands();
    s
}

#[test]
fn move_before_homing_is_refused() {
    let mut s = PositionStepper::new(PositionStepperConfig::default());
    assert_eq!(s.move_to(10), Err(PositionError::NotHomed));
    assert!(!s.is_homed());
    assert_eq!(s.state(), PositionState::NotHomed);
}

#[test]
fn homing_sequence() {
    let mut s = PositionStepper::new(PositionStepperConfig::default());
    assert_eq!(s.start_homing(), Ok(()));
    assert_eq!(s.state(), PositionState::HomingSeek);
    assert_eq!(
        s.take_commands(),
        vec![StepperCommand::Enable, StepperCommand::SetDirection(true), StepperCommand::SetFrequency(800)]
    );
    // Not yet at the endstop (high level = not triggered).
    assert_eq!(s.update(10, 10, true, true, 800), Ok(false));
    assert_eq!(s.state(), PositionState::HomingSeek);
    // Endstop hit: retract away from it.
    assert_eq!(s.update(10, 20, false, true, 800), Ok(false));
    assert_eq!(s.state(), PositionState::HomingRetract);
    assert_eq!(s.position_um(), 0);
    assert_eq!(
        s.take_commands(),
        vec![StepperCommand::Stop, StepperCommand::SetDirection(false), StepperCommand::SetFrequency(800)]
    );
    assert_eq!(s.update(500, 520, true, true, 800), Ok(true));
    assert_eq!(s.state(), PositionState::Idle);
    assert_eq!(s.position_um(), 5000);
    assert_eq!(s.position_mm(), 5);
    assert_eq!(s.take_commands(), vec![StepperCommand::Stop]);
}

#[test]
fn homing_retract_times_out() {
    let mut s = PositionStepper::new(PositionStepperConfig::default());
    s.start_homing().unwrap();
    s.update(10, 100, false, true, 800).unwrap();
    // The generator reports it is not stepping: no progress.
    assert_eq!(s.update(10, 5200, true, false, 0), Err(PositionError::HomingFailed));
}

#[test]
fn absolute_move_completes() {
    let mut s = homed_stepper();
    assert_eq!(s.move_to(300), Err(PositionError::OutOfBounds));
    assert_eq!(s.move_to(100), Ok(()));
    assert_eq!(s.state(), PositionState::Moving);
    assert_eq!(
        s.take_commands(),
        vec![StepperCommand::SetDirection(false), StepperCommand::SetFrequency(4000)]
    );
    // 50 mm/s for 900 ms from 5 mm reaches 50 mm.
    assert_eq!(s.update(900, 1000, true, true, 4000), Ok(false));
    assert_eq!(s.position_um(), 50_000);
    assert_eq!(s.update(1000, 2000, true, true, 4000), Ok(true));
    assert_eq!(s.position_um(), 100_000);
    assert!(s.is_idle());
}

#[test]
fn move_to_current_position_does_nothing() {
    let mut s = homed_stepper();
    assert_eq!(s.move_to(5), Ok(()));
    assert!(s.is_idle());
    assert!(s.take_commands().is_empty());
}

#[test]
fn estimate_is_clamped_to_range() {
    let mut s = homed_stepper();
    s.move_to(200).unwrap();
    assert_eq!(s.update(60_000, 1000, true, true, 4000), Ok(true));
    assert_eq!(s.position_um(), 200_000);
}

#[test]
fn stop_and_emergency_stop() {
    let mut s = homed_stepper();
    s.move_to(100).unwrap();
    s.take_commands();
    s.stop();
    assert!(s.is_idle());
    assert_eq!(s.take_commands(), vec![StepperCommand::Stop]);
    s.emergency_stop();
    assert_eq!(s.take_commands(), vec![StepperCommand::Stop, StepperCommand::Disable]);
    assert!(s.endstop_triggered(false));
    assert!(!s.endstop_triggered(true));
    assert!(s.is_in_bounds(0) && s.is_in_bounds(200) && !s.is_in_bounds(201));
}
