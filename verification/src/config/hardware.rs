//! Hardware configuration types: pins, motor drivers, heaters, sensors and
//! the display link.

use vstd::prelude::*;

use crate::bounded::{
    ac_motor_list, ac_motor_list_as_slice, ac_motor_list_new, dc_motor_list, dc_motor_list_as_slice,
    dc_motor_list_new, heater_hw_list_new, heater_list, heater_list_as_slice, heater_list_new,
    jar_list, jar_list_as_slice, jar_list_new, label_clone, label_is, label_text, profile_list,
    profile_list_as_slice, profile_list_new, program_list, program_list_as_slice, program_list_new,
    stepper_list, stepper_list_as_slice, stepper_list_new, tmc_list_new,
};
use crate::config::types::{HeaterConfig, JarConfig, ProfileConfig, ProgramConfig, UiConfig};
use crate::search::{first_where, lemma_first_where_found, lemma_first_where_none};

verus! {

/// Maximum steppers per config
pub const MAX_STEPPERS: usize = 4;

/// Maximum DC motors per config
pub const MAX_DC_MOTORS: usize = 4;

/// Maximum AC motors per config
pub const MAX_AC_MOTORS: usize = 4;

/// Maximum heaters per config
pub const MAX_HEATERS: usize = 4;

/// Motor type for the machine
#[derive(Debug, Clone, Copy, PartialEq, Eq, Structural, Default)]
pub enum MotorType {
    /// Stepper motors with TMC drivers
    #[default]
    Stepper,
    /// DC motors with PWM control
    Dc,
    /// AC motors with relay control
    Ac,
}

/// Pin configuration with optional inversion
#[derive(Debug, Clone, Copy, PartialEq, Eq, Structural, Default)]
pub struct PinConfig {
    /// GPIO pin number (0-29 for RP2040)
    pub pin: u8,
    /// Pin is active-low (inverted)
    pub inverted: bool,
    /// Enable internal pull-up
    pub pull_up: bool,
}

impl PinConfig {
    /// A plain pin: active-high, no pull-up
    pub fn new(pin: u8) -> (r: Self)
        ensures
            r == (PinConfig { pin, inverted: false, pull_up: false }),
    {
        PinConfig { pin, inverted: false, pull_up: false }
    }

    /// An inverted (active-low) pin
    pub fn inverted(pin: u8) -> (r: Self)
        ensures
            r == (PinConfig { pin, inverted: true, pull_up: false }),
    {
        PinConfig { pin, inverted: true, pull_up: false }
    }

    /// A pin with pull-up enabled
    pub fn with_pullup(pin: u8) -> (r: Self)
        ensures
            r == (PinConfig { pin, inverted: false, pull_up: true }),
    {
        PinConfig { pin, inverted: false, pull_up: true }
    }
}

/// DC motor driver type
#[derive(Debug, Clone, Copy, PartialEq, Eq, Structural, Default)]
pub enum DcDriverType {
    /// H-bridge driver (L298N, TB6612, etc.) - supports direction control
    #[default]
    HBridge,
    /// Single MOSFET driver - only supports one direction
    Mosfet,
    /// Dual MOSFET driver - supports direction control
    DualMosfet,
}

/// AC motor relay type
#[derive(Debug, Clone, Copy, PartialEq, Eq, Structural, Default)]
pub enum AcRelayType {
    /// Mechanical relay - slower switching, requires debounce
    #[default]
    Mechanical,
    /// Solid State Relay (SSR) - fast switching, no debounce
    Ssr,
}

/// Temperature sensor type
#[derive(Debug, Clone, Copy, PartialEq, Eq, Structural, Default)]
pub enum SensorType {
    /// NTC 100K thermistor (typical 3D printer type)
    #[default]
    Ntc100k,
    /// NTC 10K thermistor
    Ntc10k,
    /// PT100 RTD
    Pt100,
}

/// Display link configuration
#[derive(Debug, Clone, Copy, PartialEq, Eq, Structural, Default)]
pub struct DisplayHwConfig {
    /// UART TX pin
    pub uart_tx_pin: u8,
    /// UART RX pin
    pub uart_rx_pin: u8,
    /// Baud rate
    pub baud_rate: u32,
}


/// Stepper motor hardware configuration
#[derive(Debug)]
pub struct StepperHwConfig {
    /// Stepper name (e.g., "basket", "z", "x", "lid")
    pub name: heapless::String<16>,
    /// Step pulse pin
    pub step_pin: PinConfig,
    /// Direction pin
    pub dir_pin: PinConfig,
    /// Enable pin (active-low typically)
    pub enable_pin: PinConfig,
    /// Endstop pin (optional, for position-controlled steppers)
    pub endstop_pin: Option<PinConfig>,
    /// Full steps per motor rotation (typically 200 for 1.8 degree motors)
    pub full_steps_per_rotation: u16,
    /// Microsteps setting
    pub microsteps: u8,
    /// Rotation distance in mm per motor rotation: leadscrew pitch for
    /// linear axes, arc length per rotation for rotary axes, 360 for the
    /// basket (degrees as mm for RPM)
    pub rotation_distance: u16,
    /// Gear ratio numerator (e.g., 3 for 3:1)
    pub gear_ratio_num: u8,
    /// Gear ratio denominator (e.g., 1 for 3:1)
    pub gear_ratio_den: u8,
    /// Minimum valid position in mm (default: 0)
    pub position_min: i32,
    /// Maximum valid position in mm (required for position-controlled steppers)
    pub position_max: Option<i32>,
    /// Location of the endstop in mm (required if endstop_pin is set)
    pub position_endstop: Option<i32>,
    /// Homing speed in mm/s (default: 5)
    pub homing_speed: Option<u16>,
    /// Distance to retract after first endstop contact in mm (default: 5)
    pub homing_retract_dist: Option<u16>,
    /// Home in the positive direction (true) or toward zero (false);
    /// when absent, taken from where the endstop is
    pub homing_positive_dir: Option<bool>,
}

/// TMC2209 driver configuration
#[derive(Debug)]
pub struct Tmc2209HwConfig {
    /// Name of the associated stepper
    pub stepper_name: heapless::String<16>,
    /// UART TX pin
    pub uart_tx_pin: u8,
    /// UART RX pin
    pub uart_rx_pin: u8,
    /// UART address (0-3 for multi-driver bus)
    pub uart_address: u8,
    /// Run current in mA
    pub run_current_ma: u16,
    /// Hold current in mA
    pub hold_current_ma: u16,
    /// StallGuard threshold (for sensorless homing)
    pub stall_threshold: u8,
    /// Enable StealthChop mode
    pub stealthchop: bool,
    /// DIAG pin for StallGuard (optional)
    pub diag_pin: Option<u8>,
}

/// DC motor hardware configuration
#[derive(Debug)]
pub struct DcMotorHwConfig {
    /// Motor name (e.g., "basket", "z", "x", "lid")
    pub name: heapless::String<16>,
    /// PWM output pin for speed control
    pub pwm_pin: PinConfig,
    /// Direction pin (for H-bridge or dual MOSFET)
    pub dir_pin: Option<PinConfig>,
    /// Enable pin (optional, for H-bridge drivers)
    pub enable_pin: Option<PinConfig>,
    /// Driver type
    pub driver_type: DcDriverType,
    /// PWM frequency in Hz (typical: 25000)
    pub pwm_frequency: u32,
    /// Minimum duty cycle percentage (below this the motor won't start)
    pub min_duty: u8,
    /// Soft start ramp time in ms
    pub soft_start_ms: u16,
    /// Soft stop ramp time in ms
    pub soft_stop_ms: u16,
    /// Endstop pin (optional, for position-controlled motors)
    pub endstop_up: Option<PinConfig>,
    /// Second endstop pin (for bi-directional position control)
    pub endstop_down: Option<PinConfig>,
    /// Home endstop (for x-axis/rotational)
    pub endstop_home: Option<PinConfig>,
    /// Minimum valid position in mm (default: 0)
    pub position_min: i32,
    /// Maximum valid position in mm (required for position-controlled motors)
    pub position_max: Option<i32>,
    /// Location of the endstop in mm (required if endstop is set)
    pub position_endstop: Option<i32>,
}

/// AC motor hardware configuration
#[derive(Debug)]
pub struct AcMotorHwConfig {
    /// Motor name (e.g., "basket", "z", "x", "lid")
    pub name: heapless::String<16>,
    /// Relay enable pin (controls motor on/off)
    pub enable_pin: PinConfig,
    /// Direction pin (for reversible motors)
    pub direction_pin: Option<PinConfig>,
    /// Relay type
    pub relay_type: AcRelayType,
    /// Relay is active-high (true) or active-low (false)
    pub active_high: bool,
    /// Endstop pin (optional, for position-controlled motors)
    pub endstop_up: Option<PinConfig>,
    /// Second endstop pin (for bi-directional position control)
    pub endstop_down: Option<PinConfig>,
    /// Home endstop (for x-axis/rotational)
    pub endstop_home: Option<PinConfig>,
    /// Minimum valid position in mm (default: 0)
    pub position_min: i32,
    /// Maximum valid position in mm (required for position-controlled motors)
    pub position_max: Option<i32>,
    /// Location of the endstop in mm (required if endstop is set)
    pub position_endstop: Option<i32>,
}

/// Heater hardware configuration
#[derive(Debug)]
pub struct HeaterHwConfig {
    /// Heater name (matches HeaterConfig.name)
    pub name: heapless::String<16>,
    /// Heater output pin (GPIO for SSR/MOSFET)
    pub heater_pin: PinConfig,
    /// Temperature sensor ADC pin
    pub sensor_pin: u8,
    /// Sensor type
    pub sensor_type: SensorType,
}

/// Something with a name that configuration lookups go by.
pub trait Named {
    /// The characters of the name.
    spec fn name_text(&self) -> Seq<char>;

    /// Whether the name reads `name`.
    fn name_is(&self, name: &str) -> (r: bool)
        ensures
            r == (self.name_text() == name@),
    ;
}

impl Named for StepperHwConfig {
    open spec fn name_text(&self) -> Seq<char> {
        label_text(self.name)
    }

    fn name_is(&self, name: &str) -> (r: bool) {
        label_is(&self.name, name)
    }
}

impl Named for DcMotorHwConfig {
    open spec fn name_text(&self) -> Seq<char> {
        label_text(self.name)
    }

    fn name_is(&self, name: &str) -> (r: bool) {
        label_is(&self.name, name)
    }
}

impl Named for AcMotorHwConfig {
    open spec fn name_text(&self) -> Seq<char> {
        label_text(self.name)
    }

    fn name_is(&self, name: &str) -> (r: bool) {
        label_is(&self.name, name)
    }
}

impl Named for HeaterConfig {
    open spec fn name_text(&self) -> Seq<char> {
        label_text(self.name)
    }

    fn name_is(&self, name: &str) -> (r: bool) {
        label_is(&self.name, name)
    }
}

impl Named for JarConfig {
    open spec fn name_text(&self) -> Seq<char> {
        label_text(self.name)
    }

    fn name_is(&self, name: &str) -> (r: bool) {
        label_is(&self.name, name)
    }
}

impl Named for ProfileConfig {
    open spec fn name_text(&self) -> Seq<char> {
        label_text(self.label)
    }

    fn name_is(&self, name: &str) -> (r: bool) {
        label_is(&self.label, name)
    }
}

impl Named for ProgramConfig {
    open spec fn name_text(&self) -> Seq<char> {
        label_text(self.label)
    }

    fn name_is(&self, name: &str) -> (r: bool) {
        label_is(&self.label, name)
    }
}

/// The names of a list of named things.
pub open spec fn names_of<T: Named>(items: Seq<T>) -> Seq<Seq<char>> {
    items.map_values(|x: T| x.name_text())
}

/// Reads `name`.
pub open spec fn reads(name: Seq<char>) -> spec_fn(Seq<char>) -> bool {
    |s: Seq<char>| s == name
}

/// The first item whose name reads `name`.
pub open spec fn find_spec<T: Named>(items: Seq<T>, name: Seq<char>) -> Option<T> {
    match first_where(names_of(items), reads(name)) {
        Some(i) => Some(items[i]),
        None => None,
    }
}

/// The first item of `items` whose name reads `name`.
pub fn find_by_name<'a, T: Named>(items: &'a [T], name: &str) -> (r: Option<&'a T>)
    ensures
        r is Some <==> find_spec(items@, name@) is Some,
        r is Some ==> *r->0 == find_spec(items@, name@)->0,
{
    let ghost names = names_of(items@);
    let ghost p = reads(name@);
    let mut i: usize = 0;
    while i < items.len()
        invariant
            i <= items@.len(),
            names == names_of(items@),
            p == reads(name@),
            forall|j: int| 0 <= j < i ==> !p(#[trigger] names[j]),
        decreases items.len() - i,
    {
        if items[i].name_is(name) {
            proof {
                lemma_first_where_found(names, p, i as int);
            }
            return Some(&items[i]);
        }
        i = i + 1;
    }
    proof {
        lemma_first_where_none(names, p);
    }
    None
}

/// Complete machine configuration: all hardware and profile settings.
#[derive(Debug)]
pub struct MachineConfig {
    /// Configuration version for compatibility checks
    pub version: u8,
    /// Motor type for this machine
    pub motor_type: MotorType,
    /// Safe Z position for horizontal travel (mm): the basket lifts to
    /// this height before moving between jars; when absent, the z
    /// stepper's minimum position
    pub safe_z: Option<i32>,
    /// Stepper motor configurations (when motor_type = Stepper)
    pub steppers: heapless::Vec<StepperHwConfig, 4>,
    /// TMC2209 driver configurations (when motor_type = Stepper)
    pub tmc2209s: heapless::Vec<Tmc2209HwConfig, 4>,
    /// DC motor configurations (when motor_type = Dc)
    pub dc_motors: heapless::Vec<DcMotorHwConfig, 4>,
    /// AC motor configurations (when motor_type = Ac)
    pub ac_motors: heapless::Vec<AcMotorHwConfig, 4>,
    /// Heater hardware configurations
    pub heater_hw: heapless::Vec<HeaterHwConfig, 4>,
    /// Heater control configurations
    pub heaters: heapless::Vec<HeaterConfig, 4>,
    /// Jar configurations
    pub jars: heapless::Vec<JarConfig, 8>,
    /// Profile configurations
    pub profiles: heapless::Vec<ProfileConfig, 8>,
    /// Program configurations
    pub programs: heapless::Vec<ProgramConfig, 8>,
    /// Display configuration
    pub display: DisplayHwConfig,
    /// UI configuration
    pub ui: UiConfig,
}

/// A machine of this motor type has motors named `z` and `x`.
pub open spec fn automated_spec(c: MachineConfig) -> bool {
    match c.motor_type {
        MotorType::Stepper => find_spec(stepper_list(c.steppers), "z"@) is Some && find_spec(
            stepper_list(c.steppers),
            "x"@,
        ) is Some,
        MotorType::Dc => find_spec(dc_motor_list(c.dc_motors), "z"@) is Some && find_spec(
            dc_motor_list(c.dc_motors),
            "x"@,
        ) is Some,
        MotorType::Ac => find_spec(ac_motor_list(c.ac_motors), "z"@) is Some && find_spec(
            ac_motor_list(c.ac_motors),
            "x"@,
        ) is Some,
    }
}

impl MachineConfig {
    /// An empty configuration: version 1, stepper motors, no safe Z, every
    /// list empty, default display and UI settings
    pub fn new() -> (r: Self)
        ensures
            r.version == 1,
            r.motor_type == MotorType::Stepper,
            r.safe_z is None,
            stepper_list(r.steppers).len() == 0,
            dc_motor_list(r.dc_motors).len() == 0,
            ac_motor_list(r.ac_motors).len() == 0,
            heater_list(r.heaters).len() == 0,
            jar_list(r.jars).len() == 0,
            profile_list(r.profiles).len() == 0,
            program_list(r.programs).len() == 0,
            r.display == (DisplayHwConfig { uart_tx_pin: 0, uart_rx_pin: 0, baud_rate: 0 }),
            r.ui == (UiConfig { rpm_step: 10, time_step_s: 30, temp_step_c: 5 }),
    {
        MachineConfig {
            version: 1,
            motor_type: MotorType::Stepper,
            safe_z: None,
            steppers: stepper_list_new(),
            tmc2209s: tmc_list_new(),
            dc_motors: dc_motor_list_new(),
            ac_motors: ac_motor_list_new(),
            heater_hw: heater_hw_list_new(),
            heaters: heater_list_new(),
            jars: jar_list_new(),
            profiles: profile_list_new(),
            programs: program_list_new(),
            display: DisplayHwConfig { uart_tx_pin: 0, uart_rx_pin: 0, baud_rate: 0 },
            ui: UiConfig::default(),
        }
    }

    /// Find a stepper by name
    pub fn find_stepper(&self, name: &str) -> (r: Option<&StepperHwConfig>)
        ensures
            r is Some <==> find_spec(stepper_list(self.steppers), name@) is Some,
            r is Some ==> *r->0 == find_spec(stepper_list(self.steppers), name@)->0,
    {
        find_by_name(stepper_list_as_slice(&self.steppers), name)
    }

    /// Find a DC motor by name
    pub fn find_dc_motor(&self, name: &str) -> (r: Option<&DcMotorHwConfig>)
        ensures
            r is Some <==> find_spec(dc_motor_list(self.dc_motors), name@) is Some,
            r is Some ==> *r->0 == find_spec(dc_motor_list(self.dc_motors), name@)->0,
    {
        find_by_name(dc_motor_list_as_slice(&self.dc_motors), name)
    }

    /// Find an AC motor by name
    pub fn find_ac_motor(&self, name: &str) -> (r: Option<&AcMotorHwConfig>)
        ensures
            r is Some <==> find_spec(ac_motor_list(self.ac_motors), name@) is Some,
            r is Some ==> *r->0 == find_spec(ac_motor_list(self.ac_motors), name@)->0,
    {
        find_by_name(ac_motor_list_as_slice(&self.ac_motors), name)
    }

    /// Find a heater by name
    pub fn find_heater(&self, name: &str) -> (r: Option<&HeaterConfig>)
        ensures
            r is Some <==> find_spec(heater_list(self.heaters), name@) is Some,
            r is Some ==> *r->0 == find_spec(heater_list(self.heaters), name@)->0,
    {
        find_by_name(heater_list_as_slice(&self.heaters), name)
    }

    /// Find a jar by name
    pub fn find_jar(&self, name: &str) -> (r: Option<&JarConfig>)
        ensures
            r is Some <==> find_spec(jar_list(self.jars), name@) is Some,
            r is Some ==> *r->0 == find_spec(jar_list(self.jars), name@)->0,
    {
        find_by_name(jar_list_as_slice(&self.jars), name)
    }

    /// Find a profile by label
    pub fn find_profile(&self, name: &str) -> (r: Option<&ProfileConfig>)
        ensures
            r is Some <==> find_spec(profile_list(self.profiles), name@) is Some,
            r is Some ==> *r->0 == find_spec(profile_list(self.profiles), name@)->0,
    {
        find_by_name(profile_list_as_slice(&self.profiles), name)
    }

    /// Find a program by label
    pub fn find_program(&self, name: &str) -> (r: Option<&ProgramConfig>)
        ensures
            r is Some <==> find_spec(program_list(self.programs), name@) is Some,
            r is Some ==> *r->0 == find_spec(program_list(self.programs), name@)->0,
    {
        find_by_name(program_list_as_slice(&self.programs), name)
    }

    /// Whether this is an automated machine: it has `z` and `x` motors of
    /// its motor type
    pub fn is_automated(&self) -> (r: bool)
        ensures
            r == automated_spec(*self),
    {
        match self.motor_type {
            MotorType::Stepper => self.find_stepper("z").is_some() && self.find_stepper("x").is_some(),
            MotorType::Dc => self.find_dc_motor("z").is_some() && self.find_dc_motor("x").is_some(),
            MotorType::Ac => self.find_ac_motor("z").is_some() && self.find_ac_motor("x").is_some(),
        }
    }

    /// The basket stepper (for stepper motor machines)
    pub fn basket_stepper(&self) -> (r: Option<&StepperHwConfig>)
        ensures
            r is Some <==> find_spec(stepper_list(self.steppers), "basket"@) is Some,
            r is Some ==> *r->0 == find_spec(stepper_list(self.steppers), "basket"@)->0,
    {
        self.find_stepper("basket")
    }

    /// The basket DC motor (for DC motor machines)
    pub fn basket_dc_motor(&self) -> (r: Option<&DcMotorHwConfig>)
        ensures
            r is Some <==> find_spec(dc_motor_list(self.dc_motors), "basket"@) is Some,
            r is Some ==> *r->0 == find_spec(dc_motor_list(self.dc_motors), "basket"@)->0,
    {
        self.find_dc_motor("basket")
    }

    /// The basket AC motor (for AC motor machines)
    pub fn basket_ac_motor(&self) -> (r: Option<&AcMotorHwConfig>)
        ensures
            r is Some <==> find_spec(ac_motor_list(self.ac_motors), "basket"@) is Some,
            r is Some ==> *r->0 == find_spec(ac_motor_list(self.ac_motors), "basket"@)->0,
    {
        self.find_ac_motor("basket")
    }

    /// Whether a basket motor of the machine's motor type is configured
    pub fn has_basket_motor(&self) -> (r: bool)
        ensures
            r == match self.motor_type {
                MotorType::Stepper => find_spec(stepper_list(self.steppers), "basket"@) is Some,
                MotorType::Dc => find_spec(dc_motor_list(self.dc_motors), "basket"@) is Some,
                MotorType::Ac => find_spec(ac_motor_list(self.ac_motors), "basket"@) is Some,
            },
    {
        match self.motor_type {
            MotorType::Stepper => self.basket_stepper().is_some(),
            MotorType::Dc => self.basket_dc_motor().is_some(),
            MotorType::Ac => self.basket_ac_motor().is_some(),
        }
    }
}

impl Default for MachineConfig {
    fn default() -> (r: Self)
        ensures
            r.version == 1,
            r.motor_type == MotorType::Stepper,
            r.safe_z is None,
            stepper_list(r.steppers).len() == 0,
            dc_motor_list(r.dc_motors).len() == 0,
            ac_motor_list(r.ac_motors).len() == 0,
            heater_list(r.heaters).len() == 0,
            jar_list(r.jars).len() == 0,
            profile_list(r.profiles).len() == 0,
            program_list(r.programs).len() == 0,
    {
        Self::new()
    }
}

/// An empty configuration is not automated and has no basket motor.
pub proof fn lemma_empty_config_not_automated(c: MachineConfig)
    requires
        stepper_list(c.steppers).len() == 0,
        dc_motor_list(c.dc_motors).len() == 0,
        ac_motor_list(c.ac_motors).len() == 0,
    ensures
        !automated_spec(c),
        find_spec(stepper_list(c.steppers), "basket"@) is None,
{
    lemma_first_where_none(names_of(stepper_list(c.steppers)), reads("z"@));
    lemma_first_where_none(names_of(dc_motor_list(c.dc_motors)), reads("z"@));
    lemma_first_where_none(names_of(ac_motor_list(c.ac_motors)), reads("z"@));
    lemma_first_where_none(names_of(stepper_list(c.steppers)), reads("basket"@));
}

} // verus!
