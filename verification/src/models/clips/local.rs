//! Clips stored on this machine, with their metadata.
use vstd::prelude::*;
use crate::error::WayclipError;
use crate::models::clips::games::ClipsGames;
use crate::models::clips::hosted::{ClipVisibility, ClipsNewMetadata};
use crate::models::clips::tags::{ClipsClipTagRequest, ClipsTag};
use crate::models::nutype::{
    clip_name_ok, resolution_text_ok, BitrateKbpsSanitised, ClipDurationSanitised,
    ClipNameSanitised, FpsSanitised, ResolutionSanitised, TagNameSanitised,
};
use crate::settings::output::VideoFormat;
use crate::settings::recording::{Bitrate, Fps, Resolution};
use crate::text::{trim, unicode_lowercase};

verus! {

/// Method with which trimming clips is done
#[derive(Debug, Clone, Copy, PartialEq, Eq, Structural)]
pub enum SaveMethod {
    /// Replace current file
    Replace,
    /// Copy & make new
    Copy,
}

/// The metadata of a clip stored on this machine. Times are milliseconds since the Unix epoch.
#[derive(Debug, Clone)]
pub struct LocalClip {
    /// The name of clip
    pub name: String,
    /// The path for the video file
    pub video_path: String,
    /// The path for the metadata file
    pub metadata_path: String,
    /// The path for the preview file
    pub preview_path: String,
    /// Time created at
    pub created_at: i64,
    /// Time modified at
    pub modified_at: Option<i64>,
    /// Time uploaded at (or None if still local)
    pub uploaded_at: Option<i64>,
    /// Uploaded ID (or None if still local)
    pub uploaded_id: Option<String>,
    /// The tags of a clip
    pub clip_tags: Vec<ClipsTag>,
    /// If clip is liked
    pub liked: bool,
    /// Start time of clip
    pub clip_start_ms: u64,
    /// End time of clip
    pub clip_end_ms: u64,
    /// Duration of clip
    pub file_duration_ms: u64,
    /// The file size of clip
    pub file_size_mb: u64,
    /// Format clip was recorded in (mkv/mp4)
    pub video_format: VideoFormat,
    /// Bitrate clip was recorded in
    pub bitrate_kbps: Bitrate,
    /// Resolution clip was recorded in
    pub resolution: Resolution,
    /// FPs clip was recorded in
    pub fps: Fps,
    /// The GameType assosciated with this clip
    pub detected_game: Option<ClipsGames>,
}

/// Whether every tag's name is a valid tag name.
pub open spec fn tags_valid(tags: Seq<ClipsTag>) -> bool {
    forall|i: int| 0 <= i < tags.len() ==> (TagNameSanitised::try_new_spec(#[trigger] tags[i].name@) is Some)
}

/// Whether the clip's metadata passes the upload validation: its name, its duration in whole
/// seconds, bitrate and fps (as 32-bit integers), its tags and its resolution text.
pub open spec fn upload_metadata_ok(v: LocalClip) -> bool {
    &&& clip_name_ok(trim(v.name@))
    &&& ((v.file_duration_ms / 1000) as i32) >= 1
    &&& (v.bitrate_kbps.0 as i32) >= 1
    &&& tags_valid(v.clip_tags@)
    &&& resolution_text_ok(unicode_lowercase(trim(v.resolution.display())))
    &&& 1 <= (v.fps.0 as i32) <= 1000
}

impl ClipsNewMetadata {
    /// The upload metadata of a local clip, public, with every field validated.
    pub fn try_from_local(value: LocalClip) -> (r: Result<ClipsNewMetadata, WayclipError>)
        ensures
            upload_metadata_ok(value) ==> (r matches Ok(m) && {
                &&& m.name.view() == trim(value.name@)
                &&& m.duration_s.value() == ((value.file_duration_ms / 1000) as i32)
                &&& m.bitrate_kbps matches Some(b) && b.value() == (value.bitrate_kbps.0 as i32)
                &&& m.tags@.len() == value.clip_tags@.len()
                &&& forall|i: int|
                    0 <= i < m.tags@.len() ==> Some((#[trigger] m.tags@[i]).name.view())
                        == TagNameSanitised::try_new_spec(value.clip_tags@[i].name@) && m.tags@[i].color
                        == value.clip_tags@[i].color
                &&& m.resolution matches Some(x) && x.view() == unicode_lowercase(
                    trim(value.resolution.display()),
                )
                &&& m.fps matches Some(f) && f.value() == (value.fps.0 as i32)
                &&& m.clip_visibility == ClipVisibility::Public
                &&& m.detected_game == value.detected_game
            }),
            !upload_metadata_ok(value) ==> r matches Err(WayclipError::Validation(_)),
    {
        let name = match ClipNameSanitised::try_new(value.name.as_str()) {
            Ok(n) => n,
            Err(e) => return Err(e),
        };
        let duration_s = match ClipDurationSanitised::try_new((value.file_duration_ms / 1000) as i32) {
            Ok(d) => d,
            Err(e) => return Err(e),
        };
        let bitrate = match BitrateKbpsSanitised::try_new(value.bitrate_kbps.0 as i32) {
            Ok(b) => b,
            Err(e) => return Err(e),
        };
        let mut tags: Vec<ClipsClipTagRequest> = Vec::new();
        let mut i: usize = 0;
        while i < value.clip_tags.len()
            invariant
                i <= value.clip_tags@.len(),
                tags@.len() == i,
                forall|j: int| 0 <= j < i ==> TagNameSanitised::try_new_spec(#[trigger] value.clip_tags@[j].name@) is Some,
                forall|j: int|
                    0 <= j < i ==> Some((#[trigger] tags@[j]).name.view())
                        == TagNameSanitised::try_new_spec(value.clip_tags@[j].name@) && tags@[j].color
                        == value.clip_tags@[j].color,
            decreases value.clip_tags@.len() - i,
        {
            let t = &value.clip_tags[i];
            match TagNameSanitised::try_new(t.name.as_str()) {
                Ok(n) => {
                    tags.push(ClipsClipTagRequest { name: n, color: t.color });
                },
                Err(e) => {
                    assert(!tags_valid(value.clip_tags@));
                    return Err(e);
                },
            }
            i = i + 1;
        }
        let res_text = value.resolution.to_string();
        let resolution = match ResolutionSanitised::try_new(res_text.as_str()) {
            Ok(x) => x,
            Err(e) => return Err(e),
        };
        let fps = match FpsSanitised::try_new(value.fps.0 as i32) {
            Ok(f) => f,
            Err(e) => return Err(e),
        };
        Ok(ClipsNewMetadata {
            name,
            duration_s,
            bitrate_kbps: Some(bitrate),
            tags,
            clip_visibility: ClipVisibility::Public,
            detected_game: value.detected_game,
            resolution: Some(resolution),
            fps: Some(fps),
        })
    }
}

} // verus!
