//! When the daemon sends notification messages and plays sounds.
use vstd::prelude::*;

verus! {

/// Settings for sending sounds on events
#[derive(Debug, Clone, Copy, PartialEq, Eq, Structural)]
pub struct SoundsNotification {
    /// Should sound play on clip save success
    pub on_save_success: bool,
    /// Should sound play on clip save error
    pub on_save_error: bool,
}

/// Settings for sending notifications on events
#[derive(Debug, Clone, Copy, PartialEq, Eq, Structural)]
pub struct MessageNotification {
    /// Send notification when daemon starts
    pub on_daemon_start: bool,
    /// Send notification when daemon stops
    pub on_daemon_stop: bool,
    /// Send notification when clip save success
    pub on_save_success: bool,
    /// Send notification when clip save error
    pub on_save_error: bool,
}

/// The notification settings
#[derive(Debug, Clone, Copy, PartialEq, Eq, Structural)]
pub struct NotificationSettings {
    /// When to send notification message
    pub message: MessageNotification,
    /// When to play sounds
    pub sounds: SoundsNotification,
}

impl SoundsNotification {
    /// Sounds on both a saved clip and a failed save.
    pub fn default() -> (s: Self)
        ensures
            s == (SoundsNotification { on_save_success: true, on_save_error: true }),
    {
        SoundsNotification { on_save_success: true, on_save_error: true }
    }
}

impl MessageNotification {
    /// Messages on saves and failed saves, not on the daemon starting or stopping.
    pub fn default() -> (m: Self)
        ensures
            m == (MessageNotification {
                on_daemon_start: false,
                on_daemon_stop: false,
                on_save_success: true,
                on_save_error: true,
            }),
    {
        MessageNotification {
            on_save_error: true,
            on_save_success: true,
            on_daemon_stop: false,
            on_daemon_start: false,
        }
    }
}

impl NotificationSettings {
    /// The default messages and sounds.
    pub fn default() -> (n: Self)
        ensures
            n.message == (MessageNotification {
                on_daemon_start: false,
                on_daemon_stop: false,
                on_save_success: true,
                on_save_error: true,
            }),
            n.sounds == (SoundsNotification { on_save_success: true, on_save_error: true }),
    {
        NotificationSettings { message: MessageNotification::default(), sounds: SoundsNotification::default() }
    }
}

} // verus!
