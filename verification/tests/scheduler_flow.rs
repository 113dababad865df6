//! Tests of the scheduler beyond single steps: alternating segments,
//! timing queries, multi-step programs and lookups that fail.

use heapless::String;
use isochron::config::types::{JarConfig, MachineCapabilities, ProfileConfig, ProgramConfig, ProgramStep};
use isochron::scheduler::executor::{ExecutionPhase, HeaterCommand, MotorCommand, Scheduler};
use isochron::scheduler::segment::{DirectionMode, SpinOffConfig};
use isochron::state::events::Event;
use isochron::traits::stepper::Direction;

fn label(s: &str) -> String<16> {
    let mut l = String::new();
    l.push_str(s).unwrap();
    l
}

fn profile(name: &str, rpm: u16, time_s: u16, direction: DirectionMode) -> ProfileConfig {
    ProfileConfig { label: label(name), rpm, time_s, direction, iterations: 3, ..Default::default() }
}

fn jar(name: &str) -> JarConfig {
    JarConfig { name: label(name), ..Default::default() }
}

fn program(steps: &[(&str, &str)]) -> ProgramConfig {
    let mut p = ProgramConfig::default();
    p.label = label("Test");
    for (j, pr) in steps {
        p.steps.push(ProgramStep { jar: label(j), profile: label(pr) }).ok().unwrap();
    }
    p
}

fn automated() -> Scheduler {
    Scheduler::new(MachineCapabilities { is_automated: true, ..Default::default() })
}

#[test]
fn alternating_segments_switch_direction() {
    let mut s = automated();
    s.load_profiles(&[profile("Clean", 120, 60, DirectionMode::Alternate)]);
    s.load_jars(&[jar("clean")]);
    assert_eq!(s.start_program(program(&[("clean", "Clean")])), None);
    assert_eq!(s.motor_command(), MotorCommand::running(120, Direction::Clockwise));
    assert_eq!(s.segment_remaining_s(), 10);
    assert_eq!(s.tick(4), None);
    assert_eq!(s.segment_remaining_s(), 6);
    assert_eq!(s.tick(6), None);
    assert_eq!(s.motor_command(), MotorCommand::running(120, Direction::CounterClockwise));
    assert_eq!(s.step_state().unwrap().segment_index, 1);
    assert_eq!(s.total_elapsed_s(), 10);
    assert_eq!(s.step_total_s(), 60);
    for _ in 0..4 {
        assert_eq!(s.tick(10), None);
    }
    assert_eq!(s.tick(10), Some(Event::ProgramFinished));
    assert_eq!(s.phase(), ExecutionPhase::Complete);
    assert_eq!(s.motor_command(), MotorCommand::stopped());
}

#[test]
fn automated_program_advances_step_by_step() {
    let mut s = automated();
    let mut dry = profile("Dry", 60, 10, DirectionMode::CounterClockwise);
    dry.temperature_c = Some(40);
    s.load_profiles(&[profile("Clean", 120, 10, DirectionMode::Clockwise), dry]);
    s.load_jars(&[jar("clean"), jar("dry")]);
    s.start_program(program(&[("clean", "Clean"), ("dry", "Dry")]));
    assert_eq!(s.heater_command(), HeaterCommand::off());
    assert_eq!(s.tick(10), Some(Event::NextStep));
    assert_eq!(s.phase(), ExecutionPhase::StepComplete);
    assert_eq!(s.advance_step(), None);
    assert_eq!(s.phase(), ExecutionPhase::Running);
    assert_eq!(s.heater_command(), HeaterCommand::heating(40));
    assert_eq!(s.current_jar().unwrap().name.as_str(), "dry");
    assert_eq!(s.current_profile().unwrap().rpm, 60);
    assert_eq!(s.step_state().unwrap().step_index, 1);
    assert_eq!(s.tick(10), Some(Event::ProgramFinished));
    assert_eq!(s.advance_step(), None);
}

#[test]
fn manual_machine_waits_for_the_user() {
    let mut s = Scheduler::new(MachineCapabilities::default());
    let mut p = profile("Clean", 120, 10, DirectionMode::Clockwise);
    p.spinoff = Some(SpinOffConfig { lift_mm: 10, rpm: 300, time_s: 5 });
    s.load_profiles(&[p, profile("Rinse", 90, 10, DirectionMode::Clockwise)]);
    s.load_jars(&[jar("a"), jar("b")]);
    s.start_program(program(&[("a", "Clean"), ("b", "Rinse")]));
    assert_eq!(s.tick(10), Some(Event::PromptSpinOff));
    assert_eq!(s.phase(), ExecutionPhase::AwaitingSpinOff);
    assert_eq!(s.motor_command(), MotorCommand::stopped());
    assert_eq!(s.user_confirm(), None);
    assert_eq!(s.phase(), ExecutionPhase::SpinOff);
    assert_eq!(s.motor_command(), MotorCommand::running(300, Direction::Clockwise));
    assert_eq!(s.tick(5), Some(Event::PromptNextJar));
    assert_eq!(s.advance_step(), Some(Event::PromptNextJar));
    assert_eq!(s.phase(), ExecutionPhase::AwaitingJar);
    s.user_confirm();
    assert_eq!(s.phase(), ExecutionPhase::Running);
    assert_eq!(s.motor_command().rpm, 90);
}

#[test]
fn unknown_profile_does_not_start() {
    let mut s = automated();
    s.load_profiles(&[profile("Clean", 120, 60, DirectionMode::Clockwise)]);
    s.load_jars(&[jar("clean")]);
    assert_eq!(s.start_program(program(&[("clean", "Missing")])), None);
    assert_eq!(s.phase(), ExecutionPhase::Idle);
    assert_eq!(s.start_program(program(&[])), None);
    assert_eq!(s.phase(), ExecutionPhase::Idle);
}

#[test]
fn short_alternating_profile_does_not_start() {
    let mut s = automated();
    // 3 iterations over 50 s would give segments of 8 s.
    s.load_profiles(&[profile("Quick", 120, 50, DirectionMode::Alternate)]);
    s.load_jars(&[jar("j")]);
    assert_eq!(s.start_program(program(&[("j", "Quick")])), None);
    assert_eq!(s.phase(), ExecutionPhase::Idle);
}

#[test]
fn pause_and_resume_spin_off() {
    let mut s = automated();
    let mut p = profile("Clean", 120, 10, DirectionMode::Clockwise);
    p.spinoff = Some(SpinOffConfig { lift_mm: 10, rpm: 300, time_s: 5 });
    s.load_profiles(&[p]);
    s.load_jars(&[jar("j")]);
    s.start_program(program(&[("j", "Clean")]));
    assert_eq!(s.tick(10), Some(Event::StartSpinOff));
    assert_eq!(s.heater_command(), HeaterCommand::off());
    assert_eq!(s.motor_command(), MotorCommand::running(300, Direction::Clockwise));
    assert_eq!(s.tick(2), None);
    assert!(s.pause());
    assert!(!s.pause());
    assert_eq!(s.motor_command(), MotorCommand::stopped());
    assert!(s.resume());
    assert_eq!(s.phase(), ExecutionPhase::SpinOff);
    assert!(!s.resume());
    assert_eq!(s.tick(3), Some(Event::ProgramFinished));
}

#[test]
fn only_eight_profiles_are_loaded() {
    let mut s = automated();
    let many: Vec<ProfileConfig> =
        (0..10).map(|i| profile(["p0", "p1", "p2", "p3", "p4", "p5", "p6", "p7", "p8", "p9"][i], 100, 20, DirectionMode::Clockwise)).collect();
    s.load_profiles(&many);
    s.load_jars(&[jar("j")]);
    assert_eq!(s.start_program(program(&[("j", "p9")])), None);
    assert_eq!(s.phase(), ExecutionPhase::Idle);
    s.start_program(program(&[("j", "p7")]));
    assert_eq!(s.phase(), ExecutionPhase::Running);
}

#[test]
fn step_state_copies_keep_segments() {
    let mut s = automated();
    s.load_profiles(&[profile("Clean", 120, 60, DirectionMode::Alternate)]);
    s.load_jars(&[jar("clean")]);
    s.start_program(program(&[("clean", "Clean")]));
    let copy = s.step_state().unwrap().clone();
    assert_eq!(copy.segments.len(), 6);
    assert_eq!(copy.segments[5].direction, Direction::CounterClockwise);
    assert_eq!(copy.segments[5].duration_s, 10);
    s.abort();
    assert!(s.step_state().is_none());
    assert_eq!(copy.segments[0].rpm, 120);
}
