//! The platform layer of a GUI shell: window state, damage tracking, timers,
//! idle work and the event pump that drives a toolkit's window handler.
pub mod geometry;
pub mod region;
pub mod timer;
pub mod idle;
pub mod keyboard;
pub mod mouse;
pub mod error;
pub mod platform;
pub mod window;
pub mod application;
pub mod handle;
pub mod pacing;
