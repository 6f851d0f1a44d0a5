//! What the apps show about a clip: its local and hosted details.
use vstd::prelude::*;
use crate::models::clips::games::ClipsGames;
use crate::models::clips::hosted::{ClipsStatusType, HostedClip};
use crate::models::clips::local::LocalClip;
use crate::models::clips::tags::ColoredLabel;
use crate::models::clips::unified::{SelectedClip, UnifiedClip};
use crate::text::{owned, push_str};

verus! {

/// What is shown of a local clip. Times are milliseconds since the Unix epoch; the duration is
/// in milliseconds. An empty file name means that there is no local clip.
#[derive(Debug, Clone)]
pub struct LocalClipInfo {
    pub name: String,
    pub tags: Vec<ColoredLabel>,
    pub game: Option<ClipsGames>,
    pub created: i64,
    pub uploaded: Option<i64>,
    pub duration_ms: u64,
    pub file_size_mb: u64,
    pub file_name: String,
}

/// What is shown of a hosted clip. An empty id means that there is no hosted clip.
#[derive(Debug, Clone)]
pub struct HostedClipInfo {
    pub hosted_id: String,
    pub hosted_status: String,
    pub hosted_link: Option<String>,
    pub hosted_usage: i32,
}

/// What is shown of a clip: its local and hosted details, each empty when absent.
#[derive(Debug, Clone)]
pub struct SelectedClipInfo {
    pub local: LocalClipInfo,
    pub hosted: HostedClipInfo,
}

impl LocalClipInfo {
    /// No local clip.
    pub fn default() -> (i: Self)
        ensures
            i.file_name@ == Seq::<char>::empty(),
            i.name@ == Seq::<char>::empty(),
            i.tags@.len() == 0,
            i.game is None && i.uploaded is None,
            i.created == 0 && i.duration_ms == 0 && i.file_size_mb == 0,
    {
        LocalClipInfo {
            name: String::new(),
            tags: Vec::new(),
            game: None,
            created: 0,
            uploaded: None,
            duration_ms: 0,
            file_size_mb: 0,
            file_name: String::new(),
        }
    }

    /// The details of a local clip whose video file is named `file_name`: the upload time is
    /// shown only when the clip is linked to a hosted one.
    pub fn from_local(local: &LocalClip, file_name: &str) -> (i: Self)
        ensures
            i.name@ == local.name@,
            i.tags@.len() == local.clip_tags@.len(),
            forall|k: int|
                0 <= k < i.tags@.len() ==> (#[trigger] i.tags@[k]).input@ == local.clip_tags@[k].color.label().0
                    && i.tags@[k].fgcolor == local.clip_tags@[k].color.label().1,
            i.game == local.detected_game,
            i.created == local.created_at,
            i.uploaded == if local.uploaded_id is Some {
                local.uploaded_at
            } else {
                None
            },
            i.duration_ms == local.file_duration_ms,
            i.file_size_mb == local.file_size_mb,
            i.file_name@ == file_name@,
    {
        let mut tags: Vec<ColoredLabel> = Vec::new();
        let mut k: usize = 0;
        while k < local.clip_tags.len()
            invariant
                k <= local.clip_tags@.len(),
                tags@.len() == k,
                forall|q: int|
                    0 <= q < k ==> (#[trigger] tags@[q]).input@ == local.clip_tags@[q].color.label().0
                        && tags@[q].fgcolor == local.clip_tags@[q].color.label().1,
            decreases local.clip_tags@.len() - k,
        {
            tags.push(local.clip_tags[k].get_colored_string());
            k = k + 1;
        }
        let uploaded = if local.uploaded_id.is_some() {
            local.uploaded_at
        } else {
            None
        };
        LocalClipInfo {
            name: local.name.clone(),
            tags,
            game: local.detected_game,
            created: local.created_at,
            uploaded,
            duration_ms: local.file_duration_ms,
            file_size_mb: local.file_size_mb,
            file_name: owned(file_name),
        }
    }
}

/// Whether the clip, its preview and its thumbnail are all uploaded.
pub open spec fn fully_ready(h: HostedClip) -> bool {
    &&& h.preview_status == ClipsStatusType::Ready
    &&& h.clip_status == ClipsStatusType::Ready
    &&& h.thumbnail_status == ClipsStatusType::Ready
}

impl HostedClipInfo {
    /// No hosted clip.
    pub fn default() -> (i: Self)
        ensures
            i.hosted_id@ == Seq::<char>::empty(),
            i.hosted_status@ == Seq::<char>::empty(),
            i.hosted_link is None,
            i.hosted_usage == 0,
    {
        HostedClipInfo {
            hosted_id: String::new(),
            hosted_status: String::new(),
            hosted_link: None,
            hosted_usage: 0,
        }
    }

    /// The details of a hosted clip: a link and its visibility once it is fully uploaded,
    /// `Pending` before.
    pub fn from_hosted(hosted: &HostedClip) -> (i: Self)
        ensures
            i.hosted_id@ == hosted.clip_id@,
            i.hosted_usage == hosted.file_size_mb,
            fully_ready(*hosted) ==> (i.hosted_link matches Some(l) && l@
                == "https://wayclip.com/clips/"@ + hosted.clip_id@),
            fully_ready(*hosted) ==> i.hosted_status@ == hosted.clip_visibility.display(),
            !fully_ready(*hosted) ==> i.hosted_link is None && i.hosted_status@ == "Pending"@,
    {
        let ready = hosted.preview_status == ClipsStatusType::Ready && hosted.clip_status
            == ClipsStatusType::Ready && hosted.thumbnail_status == ClipsStatusType::Ready;
        if ready {
            let mut link = "https://wayclip.com/clips/".to_owned();
            push_str(&mut link, hosted.clip_id.as_str());
            HostedClipInfo {
                hosted_id: hosted.clip_id.clone(),
                hosted_status: hosted.clip_visibility.to_string(),
                hosted_link: Some(link),
                hosted_usage: hosted.file_size_mb,
            }
        } else {
            HostedClipInfo {
                hosted_id: hosted.clip_id.clone(),
                hosted_status: "Pending".to_owned(),
                hosted_link: None,
                hosted_usage: hosted.file_size_mb,
            }
        }
    }
}

impl SelectedClipInfo {
    /// The details of a unified clip, with `file_name` the name of its video file (if local).
    pub fn from_unified(clip: &UnifiedClip, file_name: &str) -> (i: Self)
        ensures
            clip.local is None ==> i.local.file_name@ == Seq::<char>::empty(),
            clip.local matches Some(l) ==> i.local.name@ == l.name@ && i.local.file_name@
                == file_name@ && i.local.created == l.created_at,
            clip.hosted is None ==> i.hosted.hosted_id@ == Seq::<char>::empty(),
            clip.hosted matches Some(h) ==> i.hosted.hosted_id@ == h.clip_id@
                && i.hosted.hosted_usage == h.file_size_mb,
    {
        let local = match &clip.local {
            Some(l) => LocalClipInfo::from_local(l, file_name),
            None => LocalClipInfo::default(),
        };
        let hosted = match &clip.hosted {
            Some(h) => HostedClipInfo::from_hosted(h),
            None => HostedClipInfo::default(),
        };
        SelectedClipInfo { local, hosted }
    }

    /// The details of a selected clip, with `file_name` the name of its video file (if local).
    pub fn from_selected(clip: &SelectedClip, file_name: &str) -> (i: Self)
        ensures
            clip is Hosted ==> i.local.file_name@ == Seq::<char>::empty(),
            clip is Local ==> i.hosted.hosted_id@ == Seq::<char>::empty(),
            match clip {
                SelectedClip::Local(l) => i.local.name@ == l.name@ && i.local.file_name@ == file_name@,
                SelectedClip::Both(l, _) => i.local.name@ == l.name@ && i.local.file_name@ == file_name@,
                SelectedClip::Hosted(_) => true,
            },
            match clip {
                SelectedClip::Hosted(h) => i.hosted.hosted_id@ == h.clip_id@,
                SelectedClip::Both(_, h) => i.hosted.hosted_id@ == h.clip_id@,
                SelectedClip::Local(_) => true,
            },
    {
        match clip {
            SelectedClip::Both(l, h) => SelectedClipInfo {
                local: LocalClipInfo::from_local(l, file_name),
                hosted: HostedClipInfo::from_hosted(h),
            },
            SelectedClip::Local(l) => SelectedClipInfo {
                local: LocalClipInfo::from_local(l, file_name),
                hosted: HostedClipInfo::default(),
            },
            SelectedClip::Hosted(h) => SelectedClipInfo {
                local: LocalClipInfo::default(),
                hosted: HostedClipInfo::from_hosted(h),
            },
        }
    }
}

} // verus!
