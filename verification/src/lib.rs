//! Core types, settings values and clip-management logic of the Wayclip ecosystem.
pub mod app;
pub mod client;
pub mod desktop;
pub mod error;
pub mod models;
pub mod num;
pub mod pattern;
pub mod settings;
pub mod text;
