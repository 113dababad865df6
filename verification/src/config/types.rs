//! Configuration type definitions: profiles, jars, programs, heaters, the
//! user interface and the machine's capabilities.

use vstd::prelude::*;

use crate::bounded::{
    label_clone, label_new, label_text, opt_label_clone, step_list, step_list_clone, step_list_new,
};
use crate::scheduler::segment::{DirectionMode, SpinOffConfig};

verus! {

/// Maximum profiles per config
pub const MAX_PROFILES: usize = 8;

/// Maximum programs per config
pub const MAX_PROGRAMS: usize = 8;

/// Maximum steps per program
pub const MAX_STEPS_PER_PROGRAM: usize = 8;

/// Maximum jars
pub const MAX_JARS: usize = 8;

/// Profile type
#[derive(Debug, Clone, Copy, PartialEq, Eq, Structural, Default)]
pub enum ProfileType {
    #[default]
    Clean,
    Rinse,
    Dry,
}

/// Profile configuration
#[derive(Debug)]
pub struct ProfileConfig {
    /// Display label
    pub label: heapless::String<16>,
    /// Profile type
    pub profile_type: ProfileType,
    /// Target RPM
    pub rpm: u16,
    /// Duration in seconds
    pub time_s: u16,
    /// Direction mode
    pub direction: DirectionMode,
    /// Number of iterations (for Alternate mode)
    pub iterations: u8,
    /// Target temperature for drying (degrees C)
    pub temperature_c: Option<i16>,
    /// Optional spin-off configuration
    pub spinoff: Option<SpinOffConfig>,
}

/// A profile as values: its label's characters and its settings.
#[verifier::ext_equal]
pub struct ProfileView {
    pub label: Seq<char>,
    pub profile_type: ProfileType,
    pub rpm: u16,
    pub time_s: u16,
    pub direction: DirectionMode,
    pub iterations: u8,
    pub temperature_c: Option<i16>,
    pub spinoff: Option<SpinOffConfig>,
}

impl View for ProfileConfig {
    type V = ProfileView;

    open spec fn view(&self) -> ProfileView {
        ProfileView {
            label: label_text(self.label),
            profile_type: self.profile_type,
            rpm: self.rpm,
            time_s: self.time_s,
            direction: self.direction,
            iterations: self.iterations,
            temperature_c: self.temperature_c,
            spinoff: self.spinoff,
        }
    }
}

impl Clone for ProfileConfig {
    fn clone(&self) -> (r: Self)
        ensures
            r@ == self@,
    {
        ProfileConfig {
            label: label_clone(&self.label),
            profile_type: self.profile_type,
            rpm: self.rpm,
            time_s: self.time_s,
            direction: self.direction,
            iterations: self.iterations,
            temperature_c: self.temperature_c,
            spinoff: self.spinoff,
        }
    }
}

impl Default for ProfileConfig {
    /// Unlabelled cleaning profile: 120 RPM for 180 s, alternating in 3
    /// iterations, no heating, no spin-off
    fn default() -> (r: Self)
        ensures
            r@ == (ProfileView {
                label: Seq::empty(),
                profile_type: ProfileType::Clean,
                rpm: 120,
                time_s: 180,
                direction: DirectionMode::Alternate,
                iterations: 3,
                temperature_c: None,
                spinoff: None,
            }),
    {
        ProfileConfig {
            label: label_new(),
            profile_type: ProfileType::Clean,
            rpm: 120,
            time_s: 180,
            direction: DirectionMode::Alternate,
            iterations: 3,
            temperature_c: None,
            spinoff: None,
        }
    }
}

/// Jar position configuration
#[derive(Debug)]
pub struct JarConfig {
    /// Jar name/identifier
    pub name: heapless::String<16>,
    /// Tower/position motor position (degrees from home)
    pub tower_pos: i32,
    /// Lift motor position (mm down from top)
    pub lift_pos: i32,
    /// Associated heater name (optional)
    pub heater: Option<heapless::String<16>>,
    /// Associated ultrasonic module name (optional)
    pub ultrasonic: Option<heapless::String<16>>,
}

/// The characters of an optional label.
pub open spec fn opt_label_text(s: Option<heapless::String<16>>) -> Option<Seq<char>> {
    match s {
        Some(l) => Some(label_text(l)),
        None => None,
    }
}

/// A jar as values.
#[verifier::ext_equal]
pub struct JarView {
    pub name: Seq<char>,
    pub tower_pos: i32,
    pub lift_pos: i32,
    pub heater: Option<Seq<char>>,
    pub ultrasonic: Option<Seq<char>>,
}

impl View for JarConfig {
    type V = JarView;

    open spec fn view(&self) -> JarView {
        JarView {
            name: label_text(self.name),
            tower_pos: self.tower_pos,
            lift_pos: self.lift_pos,
            heater: opt_label_text(self.heater),
            ultrasonic: opt_label_text(self.ultrasonic),
        }
    }
}

impl Clone for JarConfig {
    fn clone(&self) -> (r: Self)
        ensures
            r@ == self@,
    {
        JarConfig {
            name: label_clone(&self.name),
            tower_pos: self.tower_pos,
            lift_pos: self.lift_pos,
            heater: opt_label_clone(&self.heater),
            ultrasonic: opt_label_clone(&self.ultrasonic),
        }
    }
}

impl Default for JarConfig {
    fn default() -> (r: Self)
        ensures
            r@ == (JarView {
                name: Seq::empty(),
                tower_pos: 0,
                lift_pos: 0,
                heater: None,
                ultrasonic: None,
            }),
    {
        JarConfig { name: label_new(), tower_pos: 0, lift_pos: 0, heater: None, ultrasonic: None }
    }
}

/// Program step (jar + profile pair)
#[derive(Debug)]
pub struct ProgramStep {
    /// Jar name
    pub jar: heapless::String<16>,
    /// Profile name
    pub profile: heapless::String<16>,
}

/// A program step as values.
#[verifier::ext_equal]
pub struct ProgramStepView {
    pub jar: Seq<char>,
    pub profile: Seq<char>,
}

impl View for ProgramStep {
    type V = ProgramStepView;

    open spec fn view(&self) -> ProgramStepView {
        ProgramStepView { jar: label_text(self.jar), profile: label_text(self.profile) }
    }
}

impl Clone for ProgramStep {
    fn clone(&self) -> (r: Self)
        ensures
            r@ == self@,
    {
        ProgramStep { jar: label_clone(&self.jar), profile: label_clone(&self.profile) }
    }
}

impl Default for ProgramStep {
    fn default() -> (r: Self)
        ensures
            r@ == (ProgramStepView { jar: Seq::empty(), profile: Seq::empty() }),
    {
        ProgramStep { jar: label_new(), profile: label_new() }
    }
}

/// Program configuration
#[derive(Debug)]
pub struct ProgramConfig {
    /// Display label
    pub label: heapless::String<16>,
    /// Steps in this program
    pub steps: heapless::Vec<ProgramStep, 8>,
}

/// A program as values.
#[verifier::ext_equal]
pub struct ProgramView {
    pub label: Seq<char>,
    pub steps: Seq<ProgramStepView>,
}

impl View for ProgramConfig {
    type V = ProgramView;

    open spec fn view(&self) -> ProgramView {
        ProgramView {
            label: label_text(self.label),
            steps: step_list(self.steps).map_values(|s: ProgramStep| s@),
        }
    }
}

impl Clone for ProgramConfig {
    fn clone(&self) -> (r: Self)
        ensures
            r@ == self@,
    {
        ProgramConfig { label: label_clone(&self.label), steps: step_list_clone(&self.steps) }
    }
}

impl Default for ProgramConfig {
    fn default() -> (r: Self)
        ensures
            r@.label == Seq::<char>::empty(),
            r@.steps == Seq::<ProgramStepView>::empty(),
    {
        let r = ProgramConfig { label: label_new(), steps: step_list_new() };
        assert(r@.steps =~= Seq::<ProgramStepView>::empty());
        r
    }
}

/// Heater control mode
#[derive(Debug, Clone, Copy, PartialEq, Eq, Structural, Default)]
pub enum HeaterControlMode {
    /// Simple on/off control with hysteresis
    #[default]
    BangBang,
    /// PID control with time-proportioning output
    Pid,
}

/// Heater configuration
#[derive(Debug)]
pub struct HeaterConfig {
    /// Heater name/identifier
    pub name: heapless::String<16>,
    /// Control mode
    pub control: HeaterControlMode,
    /// Maximum allowed temperature (degrees C)
    pub max_temp: i16,
    /// Hysteresis for bang-bang control (degrees C)
    pub hysteresis: i16,
    /// PID proportional gain (value x 100), used in PID mode; when absent,
    /// calibration values from flash or defaults apply
    pub pid_kp_x100: Option<i16>,
    /// PID integral gain (value x 100)
    pub pid_ki_x100: Option<i16>,
    /// PID derivative gain (value x 100)
    pub pid_kd_x100: Option<i16>,
}

impl Clone for HeaterConfig {
    fn clone(&self) -> (r: Self)
        ensures
            label_text(r.name) == label_text(self.name),
            r.control == self.control,
            r.max_temp == self.max_temp,
            r.hysteresis == self.hysteresis,
            r.pid_kp_x100 == self.pid_kp_x100,
            r.pid_ki_x100 == self.pid_ki_x100,
            r.pid_kd_x100 == self.pid_kd_x100,
    {
        HeaterConfig {
            name: label_clone(&self.name),
            control: self.control,
            max_temp: self.max_temp,
            hysteresis: self.hysteresis,
            pid_kp_x100: self.pid_kp_x100,
            pid_ki_x100: self.pid_ki_x100,
            pid_kd_x100: self.pid_kd_x100,
        }
    }
}

impl Default for HeaterConfig {
    fn default() -> (r: Self)
        ensures
            label_text(r.name) == Seq::<char>::empty(),
            r.control == HeaterControlMode::BangBang,
            r.max_temp == 0,
            r.hysteresis == 0,
            r.pid_kp_x100 is None,
            r.pid_ki_x100 is None,
            r.pid_kd_x100 is None,
    {
        HeaterConfig {
            name: label_new(),
            control: HeaterControlMode::BangBang,
            max_temp: 0,
            hysteresis: 0,
            pid_kp_x100: None,
            pid_ki_x100: None,
            pid_kd_x100: None,
        }
    }
}

/// UI configuration
#[derive(Debug, Clone, Copy, PartialEq, Eq, Structural)]
pub struct UiConfig {
    /// RPM adjustment step
    pub rpm_step: u16,
    /// Time adjustment step (seconds)
    pub time_step_s: u16,
    /// Temperature adjustment step (degrees C)
    pub temp_step_c: i16,
}

impl Default for UiConfig {
    /// Steps of 10 RPM, 30 s and 5 degrees C
    fn default() -> (r: Self)
        ensures
            r == (UiConfig { rpm_step: 10, time_step_s: 30, temp_step_c: 5 }),
    {
        UiConfig { rpm_step: 10, time_step_s: 30, temp_step_c: 5 }
    }
}

/// Machine capabilities (determined from config)
#[derive(Debug, Clone, Copy, PartialEq, Eq, Structural, Default)]
pub struct MachineCapabilities {
    /// Has lift motor
    pub has_lift: bool,
    /// Has tower/position motor
    pub has_tower: bool,
    /// Has lid motor
    pub has_lid: bool,
    /// Number of heaters
    pub heater_count: u8,
    /// Is an automated machine (has lift and tower)
    pub is_automated: bool,
}

impl MachineCapabilities {
    /// Capabilities of the available hardware: a machine is automated
    /// exactly when it has both a lift and a tower motor
    pub fn from_config(has_lift: bool, has_tower: bool, has_lid: bool, heater_count: u8) -> (r: Self)
        ensures
            r == (MachineCapabilities {
                has_lift,
                has_tower,
                has_lid,
                heater_count,
                is_automated: has_lift && has_tower,
            }),
    {
        MachineCapabilities { has_lift, has_tower, has_lid, heater_count, is_automated: has_lift && has_tower }
    }
}

} // verus!
