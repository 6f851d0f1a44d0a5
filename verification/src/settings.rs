//! The settings of the Wayclip tools.
pub mod discovery;
pub mod migration;
pub mod notifications;
pub mod output;
pub mod recording;
pub mod registry;
pub mod schema;
pub mod shortcut;
pub mod tray;
pub mod version;
