//! The shortcuts that save a clip.
use vstd::prelude::*;
use crate::models::input::controller::WayclipControllerCombo;
use crate::models::input::keyboard::{WayclipKeyCode, WayclipKeyCombo, WayclipKeyModifiers};

verus! {

/// Shortcut settings daemon will follow
#[derive(Debug, Clone)]
pub struct ShortcutsSettings {
    /// The key combination that saves a clip
    pub save_clip: WayclipKeyCombo,
    /// An additional controller combination that saves a clip
    pub save_clip_controller: Option<WayclipControllerCombo>,
}

impl ShortcutsSettings {
    /// Alt+c saves a clip; no controller combination.
    pub fn default() -> (s: Self)
        ensures
            s.save_clip.key_code == WayclipKeyCode::Char('c'),
            s.save_clip.key_modifiers == (WayclipKeyModifiers {
                shift: false,
                ctrl: false,
                alt: true,
                meta: false,
            }),
            s.save_clip_controller is None,
    {
        ShortcutsSettings {
            save_clip: WayclipKeyCombo::new(WayclipKeyCode::Char('c'), WayclipKeyModifiers::alt()),
            save_clip_controller: None,
        }
    }
}

} // verus!
