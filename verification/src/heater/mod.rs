//! Heater controllers: fixed-point arithmetic, bang-bang and PID control,
//! relay autotuning, and GPIO heater outputs.

pub mod fixed;
pub mod pid;
pub mod bang_bang;
pub mod gpio;
pub mod autotune;
