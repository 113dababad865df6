//! Machine configuration: hardware description, profiles, programs and
//! persisted heater calibration.

pub mod calibration;
pub mod hardware;
pub mod types;
