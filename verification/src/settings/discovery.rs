//! Discovering the game being played.
use vstd::prelude::*;

verus! {

/// Game Discovery settings
#[derive(Debug, Clone, Copy, PartialEq, Eq, Structural)]
pub struct GameDiscovery {
    /// If daemon should discover game
    pub enabled: bool,
    /// The interval with which daemon will discover
    pub poll_interval_s: u64,
    /// If daemon should report to discord rich presence
    pub discord_rich_presence: bool,
}

impl GameDiscovery {
    /// Discovery every 20 seconds, reported to Discord.
    pub fn default() -> (g: Self)
        ensures
            g == (GameDiscovery { enabled: true, poll_interval_s: 20, discord_rich_presence: true }),
    {
        GameDiscovery { enabled: true, poll_interval_s: 20, discord_rich_presence: true }
    }
}

} // verus!
