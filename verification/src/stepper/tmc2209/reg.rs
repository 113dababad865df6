//! TMC2209 register addresses.

use vstd::prelude::*;

verus! {

/// General configuration
pub const GCONF: u8 = 0x00;

/// Global status flags
pub const GSTAT: u8 = 0x01;

/// Interface transmission counter
pub const IFCNT: u8 = 0x02;

/// Hold/run current settings
pub const IHOLD_IRUN: u8 = 0x10;

/// Power down delay
pub const TPOWERDOWN: u8 = 0x11;

/// Measured time between steps
pub const TSTEP: u8 = 0x12;

/// Upper velocity for StealthChop
pub const TPWMTHRS: u8 = 0x13;

/// Lower velocity for CoolStep/StallGuard
pub const TCOOLTHRS: u8 = 0x14;

/// StallGuard threshold
pub const SGTHRS: u8 = 0x40;

/// StallGuard result
pub const SG_RESULT: u8 = 0x41;

/// CoolStep configuration
pub const COOLCONF: u8 = 0x42;

/// Microstep counter
pub const MSCNT: u8 = 0x6A;

/// Chopper configuration
pub const CHOPCONF: u8 = 0x6C;

/// Driver status
pub const DRV_STATUS: u8 = 0x6F;

/// StealthChop PWM configuration
pub const PWMCONF: u8 = 0x70;

} // verus!
