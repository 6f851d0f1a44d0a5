//! The data that the library works on.
pub mod accounts;
pub mod auth;
pub mod clips;
pub mod input;
pub mod nutype;
pub mod query;
pub mod users;
