//! WayEyes: the pointer-tracking logic behind a pair of eyes that follow the
//! cursor on Wayland.
//!
//! The crate holds the parts of WayEyes that decide and compute on plain
//! values: command-line configuration, the cursor calibration model, the
//! mapping of compositor cursor samples into global coordinates, the setup
//! decisions of the direct Wayland and ScreenCast portal backends, and the
//! automatic backend selection.
pub mod cli;
pub mod cursor;
pub mod backend;
pub mod mapping;
pub mod wayland;
pub mod portal;
