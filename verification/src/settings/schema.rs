//! The settings schema: what each setting is, where it lives and how versions change it.
use vstd::prelude::*;

verus! {

/// A JSON value, as the settings file holds it. Numbers keep their JSON text; object members
/// keep their order.
#[derive(Debug)]
pub enum JsonValue {
    Null,
    Bool(bool),
    Number(String),
    Str(String),
    Array(Vec<JsonValue>),
    Object(Vec<(String, JsonValue)>),
}

/// Schema for defining a setting
#[derive(Debug)]
pub struct SettingsDefinition {
    /// The key
    pub key: String,
    /// Location (parent)
    pub location: String,
    /// Field name
    pub field_name: String,
    /// Type of data stored
    pub value_type: String,
    /// The default value
    pub default: JsonValue,
    /// Version the field introduced in
    pub introduced_in: String,
}

/// A type of migration change
#[derive(Debug, Clone)]
pub enum MigrationChange {
    /// Either inserting a new field
    Insert {
        /// With a setting_id, linking to already defined settings in the TOML
        setting_id: String,
    },
    /// Moving a field from one place to another without changing the value
    Move {
        /// From
        from_path: String,
        /// To
        to_path: String,
        /// What field
        field: String,
    },
    /// Removing a field
    Remove {
        /// Parent (location)
        location: String,
        /// Field name itself
        field_name: String,
    },
}

} // verus!
