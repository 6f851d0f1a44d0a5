//! What the daemon's tray shows.
use vstd::prelude::*;

verus! {

pub const DEFAULT_TRAY_ENABLED: bool = true;
pub const DEFAULT_TRAY_SHOW_LOGO: bool = true;
pub const DEFAULT_TRAY_SHOW_SAVE_CLIP: bool = true;
pub const DEFAULT_TRAY_SHOW_RESTART: bool = true;
pub const DEFAULT_TRAY_SHOW_EXIT: bool = true;
pub const DEFAULT_TRAY_SHOW_STATUS: bool = true;
pub const DEFAULT_TRAY_SHOW_STATS: bool = true;

/// The Tray settings
#[derive(Debug, Clone, Copy, PartialEq, Eq, Structural)]
pub struct TraySettings {
    /// Enable the tray itself
    pub enabled: bool,
    /// Show logo at the top
    pub show_logo: bool,
    /// Show save clip button
    pub show_save_clip: bool,
    /// Show restart daemon button
    pub show_restart: bool,
    /// Show exit daemon button
    pub show_exit: bool,
    /// Show daemon status
    pub show_status: bool,
    /// Show daemon stats
    pub show_stats: bool,
}

impl TraySettings {
    /// The tray enabled, showing everything.
    pub fn default() -> (t: Self)
        ensures
            t == (TraySettings {
                enabled: true,
                show_logo: true,
                show_save_clip: true,
                show_restart: true,
                show_exit: true,
                show_status: true,
                show_stats: true,
            }),
    {
        TraySettings {
            enabled: DEFAULT_TRAY_ENABLED,
            show_logo: DEFAULT_TRAY_SHOW_LOGO,
            show_save_clip: DEFAULT_TRAY_SHOW_SAVE_CLIP,
            show_restart: DEFAULT_TRAY_SHOW_RESTART,
            show_exit: DEFAULT_TRAY_SHOW_EXIT,
            show_status: DEFAULT_TRAY_SHOW_STATUS,
            show_stats: DEFAULT_TRAY_SHOW_STATS,
        }
    }
}

} // verus!
