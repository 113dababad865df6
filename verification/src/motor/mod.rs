//! Motor drivers: DC motors with PWM and soft start/stop, AC motors with
//! relay timing protection.

pub mod ac;
pub mod dc;
