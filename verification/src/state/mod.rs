//! Machine states, the events that drive them, and the transition table.

pub mod events;
pub mod machine;
