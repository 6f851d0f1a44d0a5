//! Clips and the games they are recorded in.
pub mod games;
pub mod hosted;
pub mod local;
pub mod tags;
pub mod unified;
