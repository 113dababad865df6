//! Motion planning and position control.

pub mod planner;
pub mod position;
