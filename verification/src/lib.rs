//! Logic of a watch cleaning machine: the controller's machine state,
//! program scheduling, motion planning and position tracking, safety
//! monitoring, heater and motor control, configuration and calibration
//! storage, the data formats of its peripherals, and the display module's
//! screen and input handling.

pub mod bounded;
pub mod config;
pub mod display;
pub mod hal;
pub mod heater;
pub mod math;
pub mod motion;
pub mod motor;
pub mod safety;
pub mod scheduler;
pub mod search;
pub mod sensor;
pub mod state;
pub mod stepper;
pub mod traits;
