//! Recognising the desktop environment the daemon runs in.
use vstd::prelude::*;
use crate::models::clips::games::{occurs_exec, occurs_in};
use crate::text::{str_chars, to_lowercase, unicode_lowercase};

verus! {

/// A desktop environment
#[derive(Debug, Clone, Copy, PartialEq, Eq, Structural)]
pub enum DesktopEnv {
    Hyprland,
    Sway,
    Gnome,
    Plasma,
    Xfce,
    Unknown,
}

/// What the environment shows of the desktop: whether `HYPRLAND_INSTANCE_SIGNATURE` and
/// `DEBUGSOCK` are set, the value of `XDG_CURRENT_DESKTOP` if set, and whether `hyprctl` and
/// `swaymsg` are on the path.
pub struct DesktopProbe {
    pub hyprland_signature: bool,
    pub current_desktop: Option<String>,
    pub hyprctl_found: bool,
    pub debugsock: bool,
    pub swaymsg_found: bool,
}

/// Whether the current desktop is set and, lowercased, contains `name`.
pub open spec fn desktop_names(p: DesktopProbe, name: Seq<char>) -> bool {
    p.current_desktop matches Some(d) && occurs_in(name, unicode_lowercase(d@))
}

/// The desktop the probe shows, tried in the order Hyprland, Sway, GNOME, Plasma, Xfce.
pub open spec fn desktop_of(p: DesktopProbe) -> DesktopEnv {
    if p.hyprland_signature || (p.current_desktop matches Some(d) && occurs_in("Hyprland"@, d@))
        || p.hyprctl_found {
        DesktopEnv::Hyprland
    } else if p.debugsock || p.swaymsg_found {
        DesktopEnv::Sway
    } else if desktop_names(p, "gnome"@) {
        DesktopEnv::Gnome
    } else if desktop_names(p, "plasma"@) {
        DesktopEnv::Plasma
    } else if desktop_names(p, "xfce"@) {
        DesktopEnv::Xfce
    } else {
        DesktopEnv::Unknown
    }
}

fn lower_contains(d: &String, name: &str) -> (b: bool)
    ensures
        b == occurs_in(name@, unicode_lowercase(d@)),
{
    let l = to_lowercase(d.as_str());
    let lc = str_chars(l.as_str());
    let n = str_chars(name);
    occurs_exec(n.as_slice(), lc.as_slice())
}

/// Recognises the desktop from what the environment shows (see `desktop_of`).
pub fn detect_desktop(p: &DesktopProbe) -> (d: DesktopEnv)
    ensures
        d == desktop_of(*p),
{
    let hypr_named = match &p.current_desktop {
        Some(d) => {
            let dc = str_chars(d.as_str());
            let n = str_chars("Hyprland");
            occurs_exec(n.as_slice(), dc.as_slice())
        },
        None => false,
    };
    if p.hyprland_signature || hypr_named || p.hyprctl_found {
        return DesktopEnv::Hyprland;
    }
    if p.debugsock || p.swaymsg_found {
        return DesktopEnv::Sway;
    }
    match &p.current_desktop {
        Some(d) => {
            if lower_contains(d, "gnome") {
                DesktopEnv::Gnome
            } else if lower_contains(d, "plasma") {
                DesktopEnv::Plasma
            } else if lower_contains(d, "xfce") {
                DesktopEnv::Xfce
            } else {
                DesktopEnv::Unknown
            }
        },
        None => DesktopEnv::Unknown,
    }
}

} // verus!
