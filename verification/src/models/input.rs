//! Keyboard and controller input.
pub mod controller;
pub mod hotkey;
pub mod keyboard;
