//! Tests of scheduler executor.

use isochron::config::types::{JarConfig, MachineCapabilities, ProfileConfig, ProgramConfig, ProgramStep};
use isochron::scheduler::executor::{ExecutionPhase, MotorCommand, Scheduler};
use isochron::scheduler::segment::{DirectionMode, SpinOffConfig};
use isochron::state::events::Event;
use isochron::traits::stepper::Direction;
use heapless::String;


fn make_profile(name: &str, rpm: u16, time_s: u16, direction: DirectionMode) -> ProfileConfig {
    let mut label = String::new();
    let _ = label.push_str(name);
    ProfileConfig {
        label,
        rpm,
        time_s,
        direction,
        iterations: 3,
        ..Default::default()
    }
}

fn make_jar(name: &str) -> JarConfig {
    let mut jar_name = String::new();
    let _ = jar_name.push_str(name);
    JarConfig {
        name: jar_name,
        ..Default::default()
    }
}

fn make_step(jar: &str, profile: &str) -> ProgramStep {
    let mut j = String::new();
    let _ = j.push_str(jar);
    let mut p = String::new();
    let _ = p.push_str(profile);
    ProgramStep { jar: j, profile: p }
}

fn make_program(name: &str, steps: &[(&str, &str)]) -> ProgramConfig {
    let mut label = String::new();
    let _ = label.push_str(name);
    let mut step_vec = heapless::Vec::new();
    for (jar, profile) in steps {
        let _ = step_vec.push(make_step(jar, profile));
    }
    ProgramConfig {
        label,
        steps: step_vec,
    }
}

#[test]
fn test_scheduler_creation() {
    let sched = Scheduler::new(MachineCapabilities::default());
    assert_eq!(sched.phase(), ExecutionPhase::Idle);
    assert_eq!(sched.motor_command(), MotorCommand::stopped());
}

#[test]
fn test_start_program() {
    let mut sched = Scheduler::new(MachineCapabilities {
        is_automated: true,
        ..Default::default()
    });

    // Load profiles and jars
    let profiles = [make_profile("Clean", 120, 60, DirectionMode::Clockwise)];
    let jars = [make_jar("clean")];
    sched.load_profiles(&profiles);
    sched.load_jars(&jars);

    // Create and start program
    let program = make_program("Test", &[("clean", "Clean")]);
    let event = sched.start_program(program);

    // Should start running (automated machine, first step)
    assert!(event.is_none()); // No event needed to start
    assert_eq!(sched.phase(), ExecutionPhase::Running);

    // Motor should be running
    let cmd = sched.motor_command();
    assert_eq!(cmd.rpm, 120);
}

#[test]
fn test_step_completion() {
    let mut sched = Scheduler::new(MachineCapabilities {
        is_automated: true,
        ..Default::default()
    });

    let profiles = [make_profile("Clean", 120, 10, DirectionMode::Clockwise)];
    let jars = [make_jar("clean")];
    sched.load_profiles(&profiles);
    sched.load_jars(&jars);

    let program = make_program("Test", &[("clean", "Clean")]);
    sched.start_program(program);

    // Tick through entire profile
    let event = sched.tick(15); // More than 10s

    // Should complete
    assert_eq!(event, Some(Event::ProgramFinished));
    assert_eq!(sched.phase(), ExecutionPhase::Complete);
}

#[test]
fn test_pause_resume() {
    let mut sched = Scheduler::new(MachineCapabilities {
        is_automated: true,
        ..Default::default()
    });

    let profiles = [make_profile("Clean", 120, 60, DirectionMode::Clockwise)];
    let jars = [make_jar("clean")];
    sched.load_profiles(&profiles);
    sched.load_jars(&jars);

    let program = make_program("Test", &[("clean", "Clean")]);
    sched.start_program(program);

    // Pause
    assert!(sched.pause());
    assert_eq!(sched.phase(), ExecutionPhase::Paused);
    assert_eq!(sched.motor_command(), MotorCommand::stopped());

    // Resume
    assert!(sched.resume());
    assert_eq!(sched.phase(), ExecutionPhase::Running);
    assert_eq!(sched.motor_command().rpm, 120);
}

#[test]
fn executor_test_manual_machine_flow() {
    let mut sched = Scheduler::new(MachineCapabilities {
        is_automated: false, // Manual machine
        ..Default::default()
    });

    let profiles = [
        make_profile("Clean", 120, 10, DirectionMode::Clockwise),
        make_profile("Rinse", 100, 10, DirectionMode::Clockwise),
    ];
    let jars = [make_jar("clean"), make_jar("rinse")];
    sched.load_profiles(&profiles);
    sched.load_jars(&jars);

    let program = make_program("Test", &[("clean", "Clean"), ("rinse", "Rinse")]);
    sched.start_program(program);

    // First step starts running (no prompt for first jar)
    assert_eq!(sched.phase(), ExecutionPhase::Running);

    // Complete first step
    let event = sched.tick(15);
    assert_eq!(event, Some(Event::PromptNextJar));
}

#[test]
fn executor_test_spinoff_flow() {
    let mut sched = Scheduler::new(MachineCapabilities {
        is_automated: true,
        has_lift: true,
        ..Default::default()
    });

    let mut profile = make_profile("Clean", 120, 10, DirectionMode::Clockwise);
    profile.spinoff = Some(SpinOffConfig {
        lift_mm: 20,
        rpm: 150,
        time_s: 5,
    });

    let profiles = [profile];
    let jars = [make_jar("clean")];
    sched.load_profiles(&profiles);
    sched.load_jars(&jars);

    let program = make_program("Test", &[("clean", "Clean")]);
    sched.start_program(program);

    // Complete profile
    let event = sched.tick(15);
    assert_eq!(event, Some(Event::StartSpinOff));
    assert_eq!(sched.phase(), ExecutionPhase::SpinOff);

    // Motor should be at spinoff RPM
    assert_eq!(sched.motor_command().rpm, 150);

    // Complete spinoff
    let event = sched.tick(10);
    assert_eq!(event, Some(Event::ProgramFinished));
}

#[test]
fn test_segment_tracking() {
    let mut sched = Scheduler::new(MachineCapabilities {
        is_automated: true,
        ..Default::default()
    });

    // Alternating profile: 3 iterations = 6 segments
    let profiles = [make_profile("Clean", 120, 60, DirectionMode::Alternate)];
    let jars = [make_jar("clean")];
    sched.load_profiles(&profiles);
    sched.load_jars(&jars);

    let program = make_program("Test", &[("clean", "Clean")]);
    sched.start_program(program);

    // Check segments were created
    let state = sched.step_state().unwrap();
    assert_eq!(state.segments.len(), 6);
    assert_eq!(state.segment_index, 0);

    // First segment is CW
    assert_eq!(state.segments[0].direction, Direction::Clockwise);
    assert_eq!(state.segments[1].direction, Direction::CounterClockwise);
}

#[test]
fn test_abort() {
    let mut sched = Scheduler::new(MachineCapabilities::default());

    let profiles = [make_profile("Clean", 120, 60, DirectionMode::Clockwise)];
    let jars = [make_jar("clean")];
    sched.load_profiles(&profiles);
    sched.load_jars(&jars);

    let program = make_program("Test", &[("clean", "Clean")]);
    sched.start_program(program);

    sched.abort();

    assert_eq!(sched.phase(), ExecutionPhase::Idle);
    assert_eq!(sched.motor_command(), MotorCommand::stopped());
    assert!(sched.step_state().is_none());
}
