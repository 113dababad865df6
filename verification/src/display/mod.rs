//! Display logic: the display interfaces, the screen buffer, and the
//! rotary encoder decoder of the display module.

pub mod backend;
pub mod encoder;
pub mod screen;
pub mod sh1106;
pub mod terminal;
