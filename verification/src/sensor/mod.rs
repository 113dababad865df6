//! Temperature sensors.

pub mod ntc100k;
