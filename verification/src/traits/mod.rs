//! Hardware abstraction traits.
//!
//! These traits define the interface between the application logic and
//! hardware-specific implementations.

pub mod display;
pub mod heater;
pub mod motor;
pub mod stepper;
