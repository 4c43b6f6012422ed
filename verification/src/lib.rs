//! Screen color picking: pixel sampling, capture-region clamping, cursor
//! synthesis with alpha premultiplication, and system-cursor state tracking.
//!
//! The library holds the decisions and computations of the picker; the
//! operating-system calls that feed it (pointer position, pixel queries,
//! display enumeration, screen rasters, cursor installation) live outside and
//! hand it plain values.

pub mod capture;
pub mod color;
pub mod cursor_image;
pub mod cursor_state;
pub mod geometry;
pub mod history;
pub mod pick_mode;
