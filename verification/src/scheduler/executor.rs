//! Program execution: tracks the current step, segment and elapsed time of
//! a cleaning program, says what the motor and the heater should do, and
//! produces the events that drive the machine's state machine.

use vstd::prelude::*;

use crate::bounded::{
    jar_list, jar_list_as_slice, jar_list_clear, jar_list_new, jar_list_push, label_as_str,
    label_is, label_text, profile_list, profile_list_as_slice, profile_list_clear,
    profile_list_new, profile_list_push, segment_list, segment_list_as_slice, segment_list_clone,
    segment_list_new, step_list_as_slice,
};
use crate::config::types::{
    JarConfig, JarView, MachineCapabilities, ProfileConfig, ProfileView, ProgramConfig,
    ProgramView, MAX_JARS, MAX_PROFILES,
};
use crate::scheduler::segment::{generate_segments, segments_spec, Segment, SpinOffConfig};
use crate::search::{first_where, lemma_first_where_found, lemma_first_where_none};
use crate::state::events::Event;
use crate::traits::stepper::Direction;

verus! {

/// Maximum segments per profile execution
pub const MAX_SEGMENTS: usize = 16;

/// Scheduler execution phase
#[derive(Debug, Clone, Copy, PartialEq, Eq, Structural)]
pub enum ExecutionPhase {
    /// Not running
    Idle,
    /// Executing main profile (motor spinning in jar)
    Running,
    /// Spin-off phase (shedding excess solution)
    SpinOff,
    /// Waiting for user to lift basket (manual machine)
    AwaitingSpinOff,
    /// Waiting for user to move to next jar (manual machine)
    AwaitingJar,
    /// Paused by user
    Paused,
    /// Step complete, transitioning
    StepComplete,
    /// All steps done
    Complete,
}

/// Current motor command from scheduler
#[derive(Debug, Clone, Copy, PartialEq, Eq, Structural)]
pub struct MotorCommand {
    /// Target RPM (0 = stopped)
    pub rpm: u16,
    /// Rotation direction
    pub direction: Direction,
}

/// The stopped motor command.
pub open spec fn motor_stopped() -> MotorCommand {
    MotorCommand { rpm: 0, direction: Direction::Clockwise }
}

impl MotorCommand {
    /// Create a stopped command
    pub fn stopped() -> (r: Self)
        ensures
            r == motor_stopped(),
    {
        MotorCommand { rpm: 0, direction: Direction::Clockwise }
    }

    /// Create a running command
    pub fn running(rpm: u16, direction: Direction) -> (r: Self)
        ensures
            r == (MotorCommand { rpm, direction }),
    {
        MotorCommand { rpm, direction }
    }
}

/// Current heater command from scheduler
#[derive(Debug, Clone, Copy, PartialEq, Eq, Structural)]
pub struct HeaterCommand {
    /// Target temperature in degrees C (None = heater off)
    pub target_temp_c: Option<i16>,
}

impl HeaterCommand {
    /// Create an off command
    pub fn off() -> (r: Self)
        ensures
            r.target_temp_c is None,
    {
        HeaterCommand { target_temp_c: None }
    }

    /// Create a heating command
    pub fn heating(temp_c: i16) -> (r: Self)
        ensures
            r.target_temp_c == Some(temp_c),
    {
        HeaterCommand { target_temp_c: Some(temp_c) }
    }
}

/// Step execution state
#[derive(Debug)]
pub struct StepState {
    /// Current step index (0-based)
    pub step_index: u8,
    /// Total steps in program
    pub total_steps: u8,
    /// Jar index for current step
    pub jar_index: u8,
    /// Profile index for current step
    pub profile_index: u8,
    /// Segments for current step
    pub segments: heapless::Vec<Segment, 16>,
    /// Current segment index
    pub segment_index: u8,
    /// Elapsed time in current segment (seconds)
    pub segment_elapsed_s: u16,
    /// Total elapsed time in current step (seconds)
    pub step_elapsed_s: u32,
    /// Spin-off configuration (if any)
    pub spinoff: Option<SpinOffConfig>,
    /// Spin-off elapsed time (seconds)
    pub spinoff_elapsed_s: u16,
}

/// A step's state as values.
#[verifier::ext_equal]
pub struct StepView {
    pub step_index: u8,
    pub total_steps: u8,
    pub jar_index: u8,
    pub profile_index: u8,
    pub segments: Seq<Segment>,
    pub segment_index: u8,
    pub segment_elapsed_s: u16,
    pub step_elapsed_s: u32,
    pub spinoff: Option<SpinOffConfig>,
    pub spinoff_elapsed_s: u16,
}

impl View for StepState {
    type V = StepView;

    open spec fn view(&self) -> StepView {
        StepView {
            step_index: self.step_index,
            total_steps: self.total_steps,
            jar_index: self.jar_index,
            profile_index: self.profile_index,
            segments: segment_list(self.segments),
            segment_index: self.segment_index,
            segment_elapsed_s: self.segment_elapsed_s,
            step_elapsed_s: self.step_elapsed_s,
            spinoff: self.spinoff,
            spinoff_elapsed_s: self.spinoff_elapsed_s,
        }
    }
}

/// The state of a step before it starts: everything zero, no segments.
pub open spec fn initial_step() -> StepView {
    StepView {
        step_index: 0,
        total_steps: 0,
        jar_index: 0,
        profile_index: 0,
        segments: Seq::empty(),
        segment_index: 0,
        segment_elapsed_s: 0,
        step_elapsed_s: 0,
        spinoff: None,
        spinoff_elapsed_s: 0,
    }
}

impl Default for StepState {
    fn default() -> (r: Self)
        ensures
            r@ == initial_step(),
    {
        StepState {
            step_index: 0,
            total_steps: 0,
            jar_index: 0,
            profile_index: 0,
            segments: segment_list_new(),
            segment_index: 0,
            segment_elapsed_s: 0,
            step_elapsed_s: 0,
            spinoff: None,
            spinoff_elapsed_s: 0,
        }
    }
}

impl Clone for StepState {
    fn clone(&self) -> (r: Self)
        ensures
            r@ == self@,
    {
        StepState {
            step_index: self.step_index,
            total_steps: self.total_steps,
            jar_index: self.jar_index,
            profile_index: self.profile_index,
            segments: segment_list_clone(&self.segments),
            segment_index: self.segment_index,
            segment_elapsed_s: self.segment_elapsed_s,
            step_elapsed_s: self.step_elapsed_s,
            spinoff: self.spinoff,
            spinoff_elapsed_s: self.spinoff_elapsed_s,
        }
    }
}

/// Program scheduler: tracks execution of a cleaning program and provides
/// motor and heater commands.
#[derive(Debug)]
pub struct Scheduler {
    phase: ExecutionPhase,
    capabilities: MachineCapabilities,
    step: StepState,
    program: Option<ProgramConfig>,
    profiles: heapless::Vec<ProfileConfig, 8>,
    jars: heapless::Vec<JarConfig, 8>,
    motor_cmd: MotorCommand,
    heater_cmd: HeaterCommand,
}

/// The scheduler as values.
#[verifier::ext_equal]
pub struct SchedulerView {
    pub phase: ExecutionPhase,
    pub capabilities: MachineCapabilities,
    pub step: StepView,
    pub program: Option<ProgramView>,
    pub profiles: Seq<ProfileView>,
    pub jars: Seq<JarView>,
    pub motor_cmd: MotorCommand,
    pub heater_cmd: HeaterCommand,
}

// ---------------------------------------------------------------------
// The scheduler's behaviour, over values
// ---------------------------------------------------------------------

/// The labels of the profiles.
pub open spec fn profile_labels(ps: Seq<ProfileView>) -> Seq<Seq<char>> {
    ps.map_values(|p: ProfileView| p.label)
}

/// The names of the jars.
pub open spec fn jar_names(js: Seq<JarView>) -> Seq<Seq<char>> {
    js.map_values(|j: JarView| j.name)
}

/// Equal to `name`.
pub open spec fn named(name: Seq<char>) -> spec_fn(Seq<char>) -> bool {
    |s: Seq<char>| s == name
}

/// The invariant the scheduler keeps between calls: the lists are within
/// their capacities and the step and segment positions are in range.
pub open spec fn sched_inv(v: SchedulerView) -> bool {
    &&& v.profiles.len() <= MAX_PROFILES
    &&& v.jars.len() <= MAX_JARS
    &&& v.step.step_index < 8
    &&& v.step.segments.len() <= MAX_SEGMENTS
    &&& v.step.segment_index <= v.step.segments.len()
}

/// The motor command the scheduler gives: its stored command while the
/// basket turns (running or spinning off), stopped otherwise.
pub open spec fn motor_command_spec(v: SchedulerView) -> MotorCommand {
    if v.phase == ExecutionPhase::Running || v.phase == ExecutionPhase::SpinOff {
        v.motor_cmd
    } else {
        motor_stopped()
    }
}

/// The heater command the scheduler gives: its stored command while the
/// profile runs, off otherwise.
pub open spec fn heater_command_spec(v: SchedulerView) -> HeaterCommand {
    if v.phase == ExecutionPhase::Running {
        v.heater_cmd
    } else {
        HeaterCommand { target_temp_c: None }
    }
}

/// Starting step `i` of the loaded program (`None` event and no change
/// when the step's profile or jar is unknown or its profile yields no
/// segments).
pub open spec fn start_step_spec(v: SchedulerView, i: u8) -> (SchedulerView, Option<Event>) {
    match v.program {
        None => (v, None),
        Some(p) => if i >= p.steps.len() {
            (SchedulerView { phase: ExecutionPhase::Complete, ..v }, Some(Event::ProgramFinished))
        } else {
            let st = p.steps[i as int];
            match first_where(profile_labels(v.profiles), named(st.profile)) {
                None => (v, None),
                Some(pi) => match first_where(jar_names(v.jars), named(st.jar)) {
                    None => (v, None),
                    Some(ji) => {
                        let prof = v.profiles[pi];
                        match segments_spec(prof.rpm, prof.time_s, prof.direction, prof.iterations) {
                            None => (v, None),
                            Some(segs) => {
                                let step = StepView {
                                    step_index: i,
                                    total_steps: p.steps.len() as u8,
                                    jar_index: ji as u8,
                                    profile_index: pi as u8,
                                    segments: segs,
                                    segment_index: 0,
                                    segment_elapsed_s: 0,
                                    step_elapsed_s: 0,
                                    spinoff: prof.spinoff,
                                    spinoff_elapsed_s: 0,
                                };
                                let motor = MotorCommand { rpm: segs[0].rpm, direction: segs[0].direction };
                                let heater = HeaterCommand { target_temp_c: prof.temperature_c };
                                if !v.capabilities.is_automated && i > 0 {
                                    (
                                        SchedulerView {
                                            phase: ExecutionPhase::AwaitingJar,
                                            step,
                                            motor_cmd: motor,
                                            heater_cmd: heater,
                                            ..v
                                        },
                                        Some(Event::PromptNextJar),
                                    )
                                } else {
                                    (
                                        SchedulerView {
                                            phase: ExecutionPhase::Running,
                                            step,
                                            motor_cmd: motor,
                                            heater_cmd: heater,
                                            ..v
                                        },
                                        None,
                                    )
                                }
                            },
                        }
                    },
                },
            }
        },
    }
}

/// Starting a program: nothing for a program without steps; otherwise the
/// program is loaded, the step state reset, and its first step started.
pub open spec fn start_program_spec(v: SchedulerView, p: ProgramView) -> (SchedulerView, Option<Event>) {
    if p.steps.len() == 0 {
        (v, None)
    } else {
        start_step_spec(SchedulerView { program: Some(p), step: initial_step(), ..v }, 0)
    }
}

/// Finishing a step: motor stopped, heater off; the program completes
/// after its last step, otherwise the step is complete and the machine
/// moves on by itself (automated) or prompts the user (manual).
pub open spec fn finish_step_spec(v: SchedulerView) -> (SchedulerView, Option<Event>) {
    let v1 = SchedulerView {
        motor_cmd: motor_stopped(),
        heater_cmd: HeaterCommand { target_temp_c: None },
        ..v
    };
    match v.program {
        None => (v1, None),
        Some(p) => if v.step.step_index + 1 >= p.steps.len() {
            (SchedulerView { phase: ExecutionPhase::Complete, ..v1 }, Some(Event::ProgramFinished))
        } else if v.capabilities.is_automated {
            (SchedulerView { phase: ExecutionPhase::StepComplete, ..v1 }, Some(Event::NextStep))
        } else {
            (SchedulerView { phase: ExecutionPhase::StepComplete, ..v1 }, Some(Event::PromptNextJar))
        },
    }
}

/// Finishing a profile's segments: spin off (automated) or prompt the
/// user to lift the basket (manual) when the profile has a spin-off,
/// otherwise finish the step.
pub open spec fn finish_profile_spec(v: SchedulerView) -> (SchedulerView, Option<Event>) {
    match v.step.spinoff {
        Some(so) => {
            let v1 = SchedulerView {
                motor_cmd: MotorCommand { rpm: so.rpm, direction: Direction::Clockwise },
                heater_cmd: HeaterCommand { target_temp_c: None },
                ..v
            };
            if v.capabilities.is_automated {
                (SchedulerView { phase: ExecutionPhase::SpinOff, ..v1 }, Some(Event::StartSpinOff))
            } else {
                (SchedulerView { phase: ExecutionPhase::AwaitingSpinOff, ..v1 }, Some(Event::PromptSpinOff))
            }
        },
        None => finish_step_spec(v),
    }
}

/// `elapsed_s` seconds pass while the profile runs.
pub open spec fn tick_running_spec(v: SchedulerView, elapsed_s: u16) -> (SchedulerView, Option<Event>) {
    let seg_el = (v.step.segment_elapsed_s + elapsed_s) as u16;
    let v1 = SchedulerView {
        step: StepView {
            segment_elapsed_s: seg_el,
            step_elapsed_s: (v.step.step_elapsed_s + elapsed_s) as u32,
            ..v.step
        },
        ..v
    };
    let idx = v.step.segment_index as int;
    if idx >= v.step.segments.len() || seg_el < v.step.segments[idx].duration_s {
        (v1, None)
    } else {
        let v2 = SchedulerView {
            step: StepView { segment_index: (idx + 1) as u8, segment_elapsed_s: 0, ..v1.step },
            ..v1
        };
        if idx + 1 < v.step.segments.len() {
            let next = v.step.segments[idx + 1];
            (SchedulerView { motor_cmd: MotorCommand { rpm: next.rpm, direction: next.direction }, ..v2 }, None)
        } else {
            finish_profile_spec(v2)
        }
    }
}

/// `elapsed_s` seconds pass while spinning off.
pub open spec fn tick_spinoff_spec(v: SchedulerView, elapsed_s: u16) -> (SchedulerView, Option<Event>) {
    let el = (v.step.spinoff_elapsed_s + elapsed_s) as u16;
    let v1 = SchedulerView { step: StepView { spinoff_elapsed_s: el, ..v.step }, ..v };
    match v.step.spinoff {
        Some(so) => if el >= so.time_s {
            finish_step_spec(SchedulerView { motor_cmd: motor_stopped(), ..v1 })
        } else {
            (v1, None)
        },
        None => (v1, None),
    }
}

/// `elapsed_s` seconds pass.
pub open spec fn tick_spec(v: SchedulerView, elapsed_s: u16) -> (SchedulerView, Option<Event>) {
    match v.phase {
        ExecutionPhase::Running => tick_running_spec(v, elapsed_s),
        ExecutionPhase::SpinOff => tick_spinoff_spec(v, elapsed_s),
        _ => (v, None),
    }
}

/// Ticking does not overflow the elapsed-time counters.
pub open spec fn tick_fits(v: SchedulerView, elapsed_s: u16) -> bool {
    &&& v.phase == ExecutionPhase::Running ==> v.step.segment_elapsed_s + elapsed_s <= u16::MAX
        && v.step.step_elapsed_s + elapsed_s <= u32::MAX
    &&& v.phase == ExecutionPhase::SpinOff ==> v.step.spinoff_elapsed_s + elapsed_s <= u16::MAX
}

/// The phase `resume` returns to: spin-off once spin-off time has been
/// counted, otherwise running.
pub open spec fn resume_phase(v: SchedulerView) -> ExecutionPhase {
    if v.step.spinoff is Some && v.step.spinoff_elapsed_s > 0 {
        ExecutionPhase::SpinOff
    } else {
        ExecutionPhase::Running
    }
}

/// The sum of the segments' durations.
pub open spec fn total_duration(segs: Seq<Segment>) -> nat
    decreases segs.len(),
{
    if segs.len() == 0 {
        0
    } else {
        total_duration(segs.drop_last()) + segs.last().duration_s as nat
    }
}

proof fn lemma_total_duration_bound(segs: Seq<Segment>)
    ensures
        total_duration(segs) <= segs.len() * 65535,
    decreases segs.len(),
{
    if segs.len() > 0 {
        lemma_total_duration_bound(segs.drop_last());
    }
}

impl View for Scheduler {
    type V = SchedulerView;

    closed spec fn view(&self) -> SchedulerView {
        SchedulerView {
            phase: self.phase,
            capabilities: self.capabilities,
            step: self.step@,
            program: match self.program {
                Some(p) => Some(p@),
                None => None,
            },
            profiles: profile_list(self.profiles).map_values(|p: ProfileConfig| p@),
            jars: jar_list(self.jars).map_values(|j: JarConfig| j@),
            motor_cmd: self.motor_cmd,
            heater_cmd: self.heater_cmd,
        }
    }
}

/// A scheduler that has just been made: idle, nothing loaded.
pub open spec fn fresh_scheduler(capabilities: MachineCapabilities) -> SchedulerView {
    SchedulerView {
        phase: ExecutionPhase::Idle,
        capabilities,
        step: initial_step(),
        program: None,
        profiles: Seq::empty(),
        jars: Seq::empty(),
        motor_cmd: motor_stopped(),
        heater_cmd: HeaterCommand { target_temp_c: None },
    }
}

impl Scheduler {
    /// Create a new, idle scheduler with nothing loaded
    pub fn new(capabilities: MachineCapabilities) -> (r: Self)
        ensures
            r@ == fresh_scheduler(capabilities),
            sched_inv(r@),
    {
        let r = Scheduler {
            phase: ExecutionPhase::Idle,
            capabilities,
            step: StepState::default(),
            program: None,
            profiles: profile_list_new(),
            jars: jar_list_new(),
            motor_cmd: MotorCommand::stopped(),
            heater_cmd: HeaterCommand::off(),
        };
        assert(r@ =~= fresh_scheduler(capabilities));
        r
    }

    /// Load the available profiles: the first eight of `profiles`
    pub fn load_profiles(&mut self, profiles: &[ProfileConfig])
        requires
            sched_inv(old(self)@),
        ensures
            final(self)@ == (SchedulerView {
                profiles: profiles@.take(
                    if profiles@.len() < MAX_PROFILES { profiles@.len() as int } else { MAX_PROFILES as int },
                ).map_values(|p: ProfileConfig| p@),
                ..old(self)@
            }),
            sched_inv(final(self)@),
    {
        profile_list_clear(&mut self.profiles);
        let mut i: usize = 0;
        while i < profiles.len() && i < MAX_PROFILES
            invariant
                i <= profiles@.len(),
                i <= MAX_PROFILES,
                self.phase == old(self).phase,
                self.capabilities == old(self).capabilities,
                self.step == old(self).step,
                self.program == old(self).program,
                self.jars == old(self).jars,
                self.motor_cmd == old(self).motor_cmd,
                self.heater_cmd == old(self).heater_cmd,
                profile_list(self.profiles).len() == i,
                profile_list(self.profiles).map_values(|p: ProfileConfig| p@)
                    =~= profiles@.take(i as int).map_values(|p: ProfileConfig| p@),
            decreases profiles.len() - i,
        {
            let p = profiles[i].clone();
            let ghost before = profile_list(self.profiles);
            let _ = profile_list_push(&mut self.profiles, p);
            proof {
                let after = profile_list(self.profiles);
                assert(after == before.push(p));
                let lhs = after.map_values(|x: ProfileConfig| x@);
                let rhs = profiles@.take(i + 1).map_values(|x: ProfileConfig| x@);
                assert forall|k: int| 0 <= k < i + 1 implies lhs[k] == rhs[k] by {
                    if k < i {
                        assert(before.map_values(|x: ProfileConfig| x@)[k] == profiles@.take(i as int).map_values(|x: ProfileConfig| x@)[k]);
                    }
                }
                assert(lhs =~= rhs);
            }
            i = i + 1;
        }
        proof {
            let n = if profiles@.len() < MAX_PROFILES { profiles@.len() as int } else { MAX_PROFILES as int };
            assert(i == n);
            assert(self@ =~= SchedulerView {
                profiles: profiles@.take(n).map_values(|p: ProfileConfig| p@),
                ..old(self)@
            });
        }
    }

    /// Load the available jars: the first eight of `jars`
    pub fn load_jars(&mut self, jars: &[JarConfig])
        requires
            sched_inv(old(self)@),
        ensures
            final(self)@ == (SchedulerView {
                jars: jars@.take(
                    if jars@.len() < MAX_JARS { jars@.len() as int } else { MAX_JARS as int },
                ).map_values(|j: JarConfig| j@),
                ..old(self)@
            }),
            sched_inv(final(self)@),
    {
        jar_list_clear(&mut self.jars);
        let mut i: usize = 0;
        while i < jars.len() && i < MAX_JARS
            invariant
                i <= jars@.len(),
                i <= MAX_JARS,
                self.phase == old(self).phase,
                self.capabilities == old(self).capabilities,
                self.step == old(self).step,
                self.program == old(self).program,
                self.profiles == old(self).profiles,
                self.motor_cmd == old(self).motor_cmd,
                self.heater_cmd == old(self).heater_cmd,
                jar_list(self.jars).len() == i,
                jar_list(self.jars).map_values(|j: JarConfig| j@)
                    =~= jars@.take(i as int).map_values(|j: JarConfig| j@),
            decreases jars.len() - i,
        {
            let j = jars[i].clone();
            let ghost before = jar_list(self.jars);
            let _ = jar_list_push(&mut self.jars, j);
            proof {
                let after = jar_list(self.jars);
                assert(after == before.push(j));
                let lhs = after.map_values(|x: JarConfig| x@);
                let rhs = jars@.take(i + 1).map_values(|x: JarConfig| x@);
                assert forall|k: int| 0 <= k < i + 1 implies lhs[k] == rhs[k] by {
                    if k < i {
                        assert(before.map_values(|x: JarConfig| x@)[k] == jars@.take(i as int).map_values(|x: JarConfig| x@)[k]);
                    }
                }
                assert(lhs =~= rhs);
            }
            i = i + 1;
        }
        proof {
            let n = if jars@.len() < MAX_JARS { jars@.len() as int } else { MAX_JARS as int };
            assert(i == n);
            assert(self@ =~= SchedulerView {
                jars: jars@.take(n).map_values(|j: JarConfig| j@),
                ..old(self)@
            });
        }
    }

    /// Get current execution phase
    pub fn phase(&self) -> (r: ExecutionPhase)
        ensures
            r == self@.phase,
    {
        self.phase
    }

    /// Get current motor command: stopped unless running or spinning off
    pub fn motor_command(&self) -> (r: MotorCommand)
        ensures
            r == motor_command_spec(self@),
    {
        if self.phase == ExecutionPhase::Running || self.phase == ExecutionPhase::SpinOff {
            self.motor_cmd
        } else {
            MotorCommand::stopped()
        }
    }

    /// Get current heater command: off unless running
    pub fn heater_command(&self) -> (r: HeaterCommand)
        ensures
            r == heater_command_spec(self@),
    {
        if self.phase == ExecutionPhase::Running {
            self.heater_cmd
        } else {
            HeaterCommand::off()
        }
    }

    /// Get current step state, while a program is under way
    pub fn step_state(&self) -> (r: Option<&StepState>)
        ensures
            r is Some <==> (self@.phase != ExecutionPhase::Idle && self@.phase != ExecutionPhase::Complete),
            r is Some ==> r->0@ == self@.step,
    {
        if self.phase != ExecutionPhase::Idle && self.phase != ExecutionPhase::Complete {
            Some(&self.step)
        } else {
            None
        }
    }

    /// Find a profile's position by its label
    fn find_profile(&self, name: &str) -> (r: Option<u8>)
        requires
            sched_inv(self@),
        ensures
            r is Some <==> first_where(profile_labels(self@.profiles), named(name@)) is Some,
            r is Some ==> r->0 == first_where(profile_labels(self@.profiles), named(name@))->0,
    {
        let ps = profile_list_as_slice(&self.profiles);
        let ghost labels = profile_labels(self@.profiles);
        let ghost p = named(name@);
        let mut i: usize = 0;
        while i < ps.len()
            invariant
                i <= ps@.len(),
                ps@.len() <= 8,
                labels.len() == ps@.len(),
                labels == profile_labels(self@.profiles),
                p == named(name@),
                forall|k: int| 0 <= k < ps@.len() ==> #[trigger] labels[k] == label_text(ps@[k].label),
                forall|j: int| 0 <= j < i ==> !p(#[trigger] labels[j]),
            decreases ps.len() - i,
        {
            if label_is(&ps[i].label, name) {
                proof {
                    lemma_first_where_found(labels, p, i as int);
                }
                return Some(i as u8);
            }
            i = i + 1;
        }
        proof {
            lemma_first_where_none(labels, p);
        }
        None
    }

    /// Find a jar's position by its name
    fn find_jar(&self, name: &str) -> (r: Option<u8>)
        requires
            sched_inv(self@),
        ensures
            r is Some <==> first_where(jar_names(self@.jars), named(name@)) is Some,
            r is Some ==> r->0 == first_where(jar_names(self@.jars), named(name@))->0,
    {
        let js = jar_list_as_slice(&self.jars);
        let ghost names = jar_names(self@.jars);
        let ghost p = named(name@);
        let mut i: usize = 0;
        while i < js.len()
            invariant
                i <= js@.len(),
                js@.len() <= 8,
                names.len() == js@.len(),
                names == jar_names(self@.jars),
                p == named(name@),
                forall|k: int| 0 <= k < js@.len() ==> #[trigger] names[k] == label_text(js@[k].name),
                forall|j: int| 0 <= j < i ==> !p(#[trigger] names[j]),
            decreases js.len() - i,
        {
            if label_is(&js[i].name, name) {
                proof {
                    lemma_first_where_found(names, p, i as int);
                }
                return Some(i as u8);
            }
            i = i + 1;
        }
        proof {
            lemma_first_where_none(names, p);
        }
        None
    }
    /// Start executing a program; the event to send first, if any
    pub fn start_program(&mut self, program: ProgramConfig) -> (r: Option<Event>)
        requires
            sched_inv(old(self)@),
        ensures
            (final(self)@, r) == start_program_spec(old(self)@, program@),
            sched_inv(final(self)@),
    {
        if step_list_as_slice(&program.steps).len() == 0 {
            return None;
        }
        let ghost pv = program@;
        self.program = Some(program);
        self.step = StepState::default();
        proof {
            assert(self@ =~= SchedulerView { program: Some(pv), step: initial_step(), ..old(self)@ });
        }
        self.start_step(0)
    }

    /// Start step `step_index` of the loaded program
    fn start_step(&mut self, step_index: u8) -> (r: Option<Event>)
        requires
            sched_inv(old(self)@),
        ensures
            (final(self)@, r) == start_step_spec(old(self)@, step_index),
            sched_inv(final(self)@),
    {
        let ghost v = self@;
        let program = match &self.program {
            Some(p) => p,
            None => {
                return None;
            },
        };
        let steps = step_list_as_slice(&program.steps);
        let n_steps = steps.len();
        if step_index as usize >= n_steps {
            self.phase = ExecutionPhase::Complete;
            proof {
                assert(self@ =~= SchedulerView { phase: ExecutionPhase::Complete, ..v });
            }
            return Some(Event::ProgramFinished);
        }
        let step = &steps[step_index as usize];
        let profile_index = match self.find_profile(label_as_str(&step.profile)) {
            Some(i) => i,
            None => {
                return None;
            },
        };
        let jar_index = match self.find_jar(label_as_str(&step.jar)) {
            Some(i) => i,
            None => {
                return None;
            },
        };
        let profiles = profile_list_as_slice(&self.profiles);
        let profile = &profiles[profile_index as usize];
        let segments = match generate_segments(
            profile.rpm,
            profile.time_s,
            profile.direction,
            profile.iterations,
        ) {
            Some(s) => s,
            None => {
                return None;
            },
        };
        let spinoff = profile.spinoff;
        let temperature = profile.temperature_c;
        self.step = StepState {
            step_index,
            total_steps: n_steps as u8,
            jar_index,
            profile_index,
            segments,
            segment_index: 0,
            segment_elapsed_s: 0,
            step_elapsed_s: 0,
            spinoff,
            spinoff_elapsed_s: 0,
        };
        let segs = segment_list_as_slice(&self.step.segments);
        if segs.len() > 0 {
            self.motor_cmd = MotorCommand::running(segs[0].rpm, segs[0].direction);
        }
        match temperature {
            Some(t) => {
                self.heater_cmd = HeaterCommand::heating(t);
            },
            None => {
                self.heater_cmd = HeaterCommand::off();
            },
        }
        if !self.capabilities.is_automated && step_index > 0 {
            self.phase = ExecutionPhase::AwaitingJar;
            proof {
                assert(self@ =~= start_step_spec(v, step_index).0);
            }
            return Some(Event::PromptNextJar);
        }
        self.phase = ExecutionPhase::Running;
        proof {
            assert(self@ =~= start_step_spec(v, step_index).0);
        }
        None
    }

    /// Get current profile, unless idle
    pub fn current_profile(&self) -> (r: Option<&ProfileConfig>)
        requires
            sched_inv(self@),
        ensures
            r is Some <==> (self@.phase != ExecutionPhase::Idle && self@.step.profile_index
                < self@.profiles.len()),
            r is Some ==> r->0@ == self@.profiles[self@.step.profile_index as int],
    {
        if self.phase == ExecutionPhase::Idle {
            return None;
        }
        let ps = profile_list_as_slice(&self.profiles);
        if (self.step.profile_index as usize) < ps.len() {
            Some(&ps[self.step.profile_index as usize])
        } else {
            None
        }
    }

    /// Get current jar, unless idle
    pub fn current_jar(&self) -> (r: Option<&JarConfig>)
        requires
            sched_inv(self@),
        ensures
            r is Some <==> (self@.phase != ExecutionPhase::Idle && self@.step.jar_index
                < self@.jars.len()),
            r is Some ==> r->0@ == self@.jars[self@.step.jar_index as int],
    {
        if self.phase == ExecutionPhase::Idle {
            return None;
        }
        let js = jar_list_as_slice(&self.jars);
        if (self.step.jar_index as usize) < js.len() {
            Some(&js[self.step.jar_index as usize])
        } else {
            None
        }
    }
    /// Let `elapsed_s` seconds pass; the event to send, if any
    pub fn tick(&mut self, elapsed_s: u16) -> (r: Option<Event>)
        requires
            sched_inv(old(self)@),
            tick_fits(old(self)@, elapsed_s),
        ensures
            (final(self)@, r) == tick_spec(old(self)@, elapsed_s),
            sched_inv(final(self)@),
    {
        match self.phase {
            ExecutionPhase::Running => self.tick_running(elapsed_s),
            ExecutionPhase::SpinOff => self.tick_spinoff(elapsed_s),
            _ => None,
        }
    }

    fn tick_running(&mut self, elapsed_s: u16) -> (r: Option<Event>)
        requires
            sched_inv(old(self)@),
            old(self)@.phase == ExecutionPhase::Running,
            tick_fits(old(self)@, elapsed_s),
        ensures
            (final(self)@, r) == tick_running_spec(old(self)@, elapsed_s),
            sched_inv(final(self)@),
    {
        let ghost v = self@;
        self.step.segment_elapsed_s = self.step.segment_elapsed_s + elapsed_s;
        self.step.step_elapsed_s = self.step.step_elapsed_s + elapsed_s as u32;
        let segs = segment_list_as_slice(&self.step.segments);
        let idx = self.step.segment_index as usize;
        if idx >= segs.len() {
            return None;
        }
        if self.step.segment_elapsed_s >= segs[idx].duration_s {
            self.step.segment_index = self.step.segment_index + 1;
            self.step.segment_elapsed_s = 0;
            if idx + 1 < segs.len() {
                let next = segs[idx + 1];
                self.motor_cmd = MotorCommand::running(next.rpm, next.direction);
                return None;
            } else {
                return self.finish_profile();
            }
        }
        None
    }

    fn finish_profile(&mut self) -> (r: Option<Event>)
        requires
            sched_inv(old(self)@),
        ensures
            (final(self)@, r) == finish_profile_spec(old(self)@),
            sched_inv(final(self)@),
    {
        let ghost v = self@;
        match self.step.spinoff {
            Some(spinoff) => {
                self.motor_cmd = MotorCommand::running(spinoff.rpm, Direction::Clockwise);
                self.heater_cmd = HeaterCommand::off();
                if self.capabilities.is_automated {
                    self.phase = ExecutionPhase::SpinOff;
                    proof {
                        assert(self@ =~= finish_profile_spec(v).0);
                    }
                    Some(Event::StartSpinOff)
                } else {
                    self.phase = ExecutionPhase::AwaitingSpinOff;
                    proof {
                        assert(self@ =~= finish_profile_spec(v).0);
                    }
                    Some(Event::PromptSpinOff)
                }
            },
            None => self.finish_step(),
        }
    }

    fn tick_spinoff(&mut self, elapsed_s: u16) -> (r: Option<Event>)
        requires
            sched_inv(old(self)@),
            old(self)@.phase == ExecutionPhase::SpinOff,
            tick_fits(old(self)@, elapsed_s),
        ensures
            (final(self)@, r) == tick_spinoff_spec(old(self)@, elapsed_s),
            sched_inv(final(self)@),
    {
        self.step.spinoff_elapsed_s = self.step.spinoff_elapsed_s + elapsed_s;
        match self.step.spinoff {
            Some(spinoff) => {
                if self.step.spinoff_elapsed_s >= spinoff.time_s {
                    return self.finish_spinoff();
                }
            },
            None => {},
        }
        None
    }

    fn finish_spinoff(&mut self) -> (r: Option<Event>)
        requires
            sched_inv(old(self)@),
        ensures
            (final(self)@, r) == finish_step_spec(SchedulerView { motor_cmd: motor_stopped(), ..old(self)@ }),
            sched_inv(final(self)@),
    {
        self.motor_cmd = MotorCommand::stopped();
        self.finish_step()
    }

    fn finish_step(&mut self) -> (r: Option<Event>)
        requires
            sched_inv(old(self)@),
        ensures
            (final(self)@, r) == finish_step_spec(old(self)@),
            sched_inv(final(self)@),
    {
        let ghost v = self@;
        self.motor_cmd = MotorCommand::stopped();
        self.heater_cmd = HeaterCommand::off();
        let next_step = self.step.step_index + 1;
        let program = match &self.program {
            Some(p) => p,
            None => {
                proof {
                    assert(self@ =~= finish_step_spec(v).0);
                }
                return None;
            },
        };
        if next_step as usize >= step_list_as_slice(&program.steps).len() {
            self.phase = ExecutionPhase::Complete;
            proof {
                assert(self@ =~= finish_step_spec(v).0);
            }
            return Some(Event::ProgramFinished);
        }
        self.phase = ExecutionPhase::StepComplete;
        proof {
            assert(self@ =~= finish_step_spec(v).0);
        }
        if self.capabilities.is_automated {
            Some(Event::NextStep)
        } else {
            Some(Event::PromptNextJar)
        }
    }

    /// User confirmed a prompt of a manual machine: the basket is in the
    /// next jar (running resumes) or lifted (spin-off starts)
    pub fn user_confirm(&mut self) -> (r: Option<Event>)
        ensures
            r is None,
            final(self)@ == (SchedulerView {
                phase: match old(self)@.phase {
                    ExecutionPhase::AwaitingJar => ExecutionPhase::Running,
                    ExecutionPhase::AwaitingSpinOff => ExecutionPhase::SpinOff,
                    p => p,
                },
                ..old(self)@
            }),
    {
        let ghost v = self@;
        match self.phase {
            ExecutionPhase::AwaitingJar => {
                self.phase = ExecutionPhase::Running;
            },
            ExecutionPhase::AwaitingSpinOff => {
                self.phase = ExecutionPhase::SpinOff;
            },
            _ => {},
        }
        proof {
            assert(self@ =~= SchedulerView {
                phase: match v.phase {
                    ExecutionPhase::AwaitingJar => ExecutionPhase::Running,
                    ExecutionPhase::AwaitingSpinOff => ExecutionPhase::SpinOff,
                    p => p,
                },
                ..v
            });
        }
        None
    }

    /// Advance to the next step after a step completed
    pub fn advance_step(&mut self) -> (r: Option<Event>)
        requires
            sched_inv(old(self)@),
        ensures
            old(self)@.phase == ExecutionPhase::StepComplete ==> (final(self)@, r) == start_step_spec(
                old(self)@,
                (old(self)@.step.step_index + 1) as u8,
            ),
            old(self)@.phase != ExecutionPhase::StepComplete ==> final(self)@ == old(self)@ && r is None,
            sched_inv(final(self)@),
    {
        if self.phase == ExecutionPhase::StepComplete {
            let next_index = self.step.step_index + 1;
            self.start_step(next_index)
        } else {
            None
        }
    }

    /// Pause execution while running or spinning off; the motor command is
    /// kept for resuming
    pub fn pause(&mut self) -> (r: bool)
        ensures
            r == (old(self)@.phase == ExecutionPhase::Running || old(self)@.phase == ExecutionPhase::SpinOff),
            r ==> final(self)@ == (SchedulerView { phase: ExecutionPhase::Paused, ..old(self)@ }),
            !r ==> final(self)@ == old(self)@,
    {
        if self.phase == ExecutionPhase::Running || self.phase == ExecutionPhase::SpinOff {
            let ghost v = self@;
            self.phase = ExecutionPhase::Paused;
            proof {
                assert(self@ =~= SchedulerView { phase: ExecutionPhase::Paused, ..v });
            }
            true
        } else {
            false
        }
    }

    /// Resume execution after a pause (see `resume_phase`)
    pub fn resume(&mut self) -> (r: bool)
        ensures
            r == (old(self)@.phase == ExecutionPhase::Paused),
            r ==> final(self)@ == (SchedulerView { phase: resume_phase(old(self)@), ..old(self)@ }),
            !r ==> final(self)@ == old(self)@,
    {
        if self.phase == ExecutionPhase::Paused {
            let ghost v = self@;
            if self.step.spinoff.is_some() && self.step.spinoff_elapsed_s > 0 {
                self.phase = ExecutionPhase::SpinOff;
            } else {
                self.phase = ExecutionPhase::Running;
            }
            proof {
                assert(self@ =~= SchedulerView { phase: resume_phase(v), ..v });
            }
            true
        } else {
            false
        }
    }

    /// Abort execution: idle, motor stopped, heater off, program unloaded
    pub fn abort(&mut self)
        requires
            sched_inv(old(self)@),
        ensures
            final(self)@ == (SchedulerView {
                phase: ExecutionPhase::Idle,
                motor_cmd: motor_stopped(),
                heater_cmd: HeaterCommand { target_temp_c: None },
                program: None,
                step: initial_step(),
                ..old(self)@
            }),
            sched_inv(final(self)@),
    {
        let ghost v = self@;
        self.phase = ExecutionPhase::Idle;
        self.motor_cmd = MotorCommand::stopped();
        self.heater_cmd = HeaterCommand::off();
        self.program = None;
        self.step = StepState::default();
        proof {
            assert(self@ =~= SchedulerView {
                phase: ExecutionPhase::Idle,
                motor_cmd: motor_stopped(),
                heater_cmd: HeaterCommand { target_temp_c: None },
                program: None,
                step: initial_step(),
                ..v
            });
        }
    }

    /// Elapsed time of the current step (seconds)
    pub fn total_elapsed_s(&self) -> (r: u32)
        ensures
            r == self@.step.step_elapsed_s,
    {
        self.step.step_elapsed_s
    }

    /// Remaining time of the current segment (seconds, 0 once past the
    /// last segment)
    pub fn segment_remaining_s(&self) -> (r: u16)
        ensures
            self@.step.segment_index < self@.step.segments.len() ==> r == (if self@.step.segments[self@.step.segment_index as int].duration_s
                >= self@.step.segment_elapsed_s {
                self@.step.segments[self@.step.segment_index as int].duration_s - self@.step.segment_elapsed_s
            } else {
                0
            }),
            self@.step.segment_index >= self@.step.segments.len() ==> r == 0,
    {
        let segs = segment_list_as_slice(&self.step.segments);
        let idx = self.step.segment_index as usize;
        if idx < segs.len() {
            segs[idx].duration_s.saturating_sub(self.step.segment_elapsed_s)
        } else {
            0
        }
    }

    /// Total time of the current step (seconds): its segments plus its
    /// spin-off
    pub fn step_total_s(&self) -> (r: u32)
        ensures
            r == total_duration(self@.step.segments) + match self@.step.spinoff {
                Some(so) => so.time_s as nat,
                None => 0,
            },
    {
        let segs = segment_list_as_slice(&self.step.segments);
        let mut total: u32 = 0;
        let mut i: usize = 0;
        while i < segs.len()
            invariant
                i <= segs@.len(),
                segs@.len() <= 16,
                total == total_duration(segs@.take(i as int)),
            decreases segs.len() - i,
        {
            proof {
                assert(segs@.take(i + 1).drop_last() =~= segs@.take(i as int));
                lemma_total_duration_bound(segs@.take(i as int));
            }
            total = total + segs[i].duration_s as u32;
            i = i + 1;
        }
        proof {
            assert(segs@.take(segs@.len() as int) =~= segs@);
            lemma_total_duration_bound(segs@);
        }
        let spinoff_time: u32 = match self.step.spinoff {
            Some(so) => so.time_s as u32,
            None => 0,
        };
        total + spinoff_time
    }
}

impl Default for Scheduler {
    fn default() -> (r: Self)
        ensures
            r@ == fresh_scheduler(MachineCapabilities {
                has_lift: false,
                has_tower: false,
                has_lid: false,
                heater_count: 0,
                is_automated: false,
            }),
            sched_inv(r@),
    {
        Self::new(MachineCapabilities::from_config(false, false, false, 0))
    }
}

/// Every event the scheduler emits, on a tick or when a step starts, is a
/// scheduler event.
pub proof fn lemma_scheduler_emits_scheduler_events(v: SchedulerView, elapsed_s: u16, i: u8)
    ensures
        tick_spec(v, elapsed_s).1 matches Some(e) ==> e.spec_is_scheduler_event(),
        start_step_spec(v, i).1 matches Some(e) ==> e.spec_is_scheduler_event(),
{
}

/// Outside running and spin-off the motor is commanded stopped, and
/// outside running the heater is commanded off: in particular a paused
/// scheduler drives neither.
pub proof fn lemma_commands_off_when_not_running(v: SchedulerView)
    ensures
        v.phase != ExecutionPhase::Running && v.phase != ExecutionPhase::SpinOff ==> motor_command_spec(v)
            == motor_stopped(),
        v.phase != ExecutionPhase::Running ==> heater_command_spec(v).target_temp_c is None,
{
}

/// Spin-off never heats: when a profile's segments finish, the heater is
/// commanded off, and a spin-off spins clockwise at the spin-off speed.
pub proof fn lemma_spinoff_never_heats(v: SchedulerView)
    requires
        v.step.spinoff is Some,
    ensures
        finish_profile_spec(v).0.heater_cmd.target_temp_c is None,
        heater_command_spec(finish_profile_spec(v).0).target_temp_c is None,
        finish_profile_spec(v).0.phase == ExecutionPhase::SpinOff ==> motor_command_spec(
            finish_profile_spec(v).0,
        ) == (MotorCommand { rpm: v.step.spinoff->0.rpm, direction: Direction::Clockwise }),
{
}

/// Pausing and then resuming returns to the phase paused from, with the
/// same motor and heater commands, for a running profile and for a
/// spin-off that has counted time.
pub proof fn lemma_pause_resume_round_trip(v: SchedulerView)
    requires
        (v.phase == ExecutionPhase::Running && !(v.step.spinoff is Some && v.step.spinoff_elapsed_s > 0))
            || (v.phase == ExecutionPhase::SpinOff && v.step.spinoff is Some && v.step.spinoff_elapsed_s
            > 0),
    ensures
        ({
            let paused = SchedulerView { phase: ExecutionPhase::Paused, ..v };
            let resumed = SchedulerView { phase: resume_phase(paused), ..paused };
            &&& resumed == v
            &&& motor_command_spec(resumed) == motor_command_spec(v)
            &&& heater_command_spec(resumed) == heater_command_spec(v)
        }),
{
    let paused = SchedulerView { phase: ExecutionPhase::Paused, ..v };
    let resumed = SchedulerView { phase: resume_phase(paused), ..paused };
    assert(resumed =~= v);
}

/// A program whose steps all refer to a known profile and jar, and whose
/// profiles all yield segments, starts: the first step runs at once.
pub proof fn lemma_first_step_starts(v: SchedulerView, p: ProgramView)
    requires
        p.steps.len() > 0,
        first_where(profile_labels(v.profiles), named(p.steps[0].profile)) is Some,
        first_where(jar_names(v.jars), named(p.steps[0].jar)) is Some,
        ({
            let prof = v.profiles[first_where(profile_labels(v.profiles), named(p.steps[0].profile))->0];
            segments_spec(prof.rpm, prof.time_s, prof.direction, prof.iterations) is Some
        }),
    ensures
        start_program_spec(v, p).0.phase == ExecutionPhase::Running,
        start_program_spec(v, p).1 is None,
        start_program_spec(v, p).0.step.step_index == 0,
{
}

} // verus!
