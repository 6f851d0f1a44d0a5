//! Clips seen together, whether stored here, hosted, or both.
use vstd::prelude::*;
use crate::models::clips::hosted::HostedClip;
use crate::models::clips::local::LocalClip;

verus! {

/// A clip as the apps list it: a name and creation time (milliseconds since the Unix epoch), and
/// its local and hosted forms, where it has them.
#[derive(Debug, Clone)]
pub struct UnifiedClip {
    /// General name of clip (usually gotten from local)
    pub name: String,
    /// When clip was created
    pub created_at: i64,
    /// LocalClip model, if it exists
    pub local: Option<LocalClip>,
    /// HostedClip model, if it exists
    pub hosted: Option<HostedClip>,
}

/// Type of a unified clip
#[derive(Debug, Clone, Copy, PartialEq, Eq, Structural)]
pub enum UnifiedClipType {
    /// Only local is present
    LocalOnly,
    /// Only hosted is present
    HostedOnly,
    /// Both hosted and local are present
    Both,
    /// Neither are present
    Neither,
}

impl UnifiedClipType {
    /// The type of a unified clip, by which forms it has.
    pub open spec fn of(c: UnifiedClip) -> UnifiedClipType {
        match (c.local, c.hosted) {
            (Some(_), Some(_)) => UnifiedClipType::Both,
            (Some(_), None) => UnifiedClipType::LocalOnly,
            (None, Some(_)) => UnifiedClipType::HostedOnly,
            (None, None) => UnifiedClipType::Neither,
        }
    }

    pub fn from_unified(value: &UnifiedClip) -> (t: Self)
        ensures
            t == Self::of(*value),
    {
        match (&value.local, &value.hosted) {
            (Some(_), Some(_)) => UnifiedClipType::Both,
            (Some(_), None) => UnifiedClipType::LocalOnly,
            (None, Some(_)) => UnifiedClipType::HostedOnly,
            (None, None) => UnifiedClipType::Neither,
        }
    }

    /// The displayed form.
    pub open spec fn display(self) -> Seq<char> {
        match self {
            UnifiedClipType::LocalOnly => "Local"@,
            UnifiedClipType::HostedOnly => "Hosted"@,
            UnifiedClipType::Both => "Local & Hosted"@,
            UnifiedClipType::Neither => "Not Available"@,
        }
    }

    pub fn to_string(&self) -> (s: String)
        ensures
            s@ == self.display(),
    {
        match self {
            UnifiedClipType::LocalOnly => "Local".to_owned(),
            UnifiedClipType::HostedOnly => "Hosted".to_owned(),
            UnifiedClipType::Both => "Local & Hosted".to_owned(),
            UnifiedClipType::Neither => "Not Available".to_owned(),
        }
    }
}

/// The clip to manage after user found correct one
#[derive(Debug, Clone)]
pub enum SelectedClip {
    /// Manage local
    Local(LocalClip),
    /// Manage hosted
    Hosted(HostedClip),
    /// Manage both
    Both(LocalClip, HostedClip),
}

/// The type of the selected clip
#[derive(Debug, Clone, Copy, PartialEq, Eq, Structural)]
pub enum SelectedClipType {
    /// Local
    Local,
    /// Hosted
    Hosted,
    /// Both
    Both,
}

impl SelectedClipType {
    /// The selection type of a clip that is only local or only hosted.
    pub fn from_unified_type(value: UnifiedClipType) -> (t: Self)
        requires
            value == UnifiedClipType::LocalOnly || value == UnifiedClipType::HostedOnly,
        ensures
            value == UnifiedClipType::LocalOnly ==> t == SelectedClipType::Local,
            value == UnifiedClipType::HostedOnly ==> t == SelectedClipType::Hosted,
    {
        match value {
            UnifiedClipType::HostedOnly => SelectedClipType::Hosted,
            _ => SelectedClipType::Local,
        }
    }
}

} // verus!
