//! Profile scheduler: turns profiles into execution segments and runs
//! cleaning programs step by step.

pub mod segment;
pub mod executor;
