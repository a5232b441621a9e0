//! Verified logic of a libretro core for the Agon Light (Console8) computer:
//! audio and video conversion, PS/2 keyboard tracking, firmware and SD card
//! location choices, VDP module search, and the core's load/run/reset life cycle.

pub mod audio;
pub mod video;
pub mod keyboard;
pub mod paths;
pub mod loader;
pub mod core_state;
