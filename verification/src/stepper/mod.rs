//! Stepper drivers.

pub mod tmc2209;
