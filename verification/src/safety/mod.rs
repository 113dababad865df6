//! Safety monitoring: detects fault conditions and triggers error states.

pub mod monitor;
