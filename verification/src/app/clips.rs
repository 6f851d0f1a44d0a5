//! Clip management.
pub mod actions;
pub mod ffmpeg;
pub mod info;
pub mod local;
pub mod query;
pub mod unified;
