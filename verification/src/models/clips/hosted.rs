//! Clips hosted by the API: what it sends, and the requests that create and change them.
use vstd::prelude::*;
use crate::models::clips::games::ClipsGames;
use crate::models::clips::tags::{ClipsClipTagRequest, ClipsClipTagResponse};
use crate::models::nutype::{
    BitrateKbpsSanitised, ClipCommentContentSanitised, ClipDurationSanitised, ClipNameSanitised,
    FpsSanitised, ResolutionSanitised,
};

verus! {

/// The request to leave a new comment
#[derive(Debug, Clone)]
pub struct ClipsNewCommentRequest {
    /// Content of comment
    pub content: ClipCommentContentSanitised,
    /// Parent ID of under what we are replying to
    pub parent_comment_id: Option<String>,
}

/// The uploading status of a clip/preview/thumbnail
#[derive(Debug, Clone, Copy, PartialEq, Eq, Structural)]
pub enum ClipsStatusType {
    /// We dont know
    Unknown,
    /// Still processing
    Processing,
    /// Failed upload
    Failed,
    /// Fully uploaded
    Ready,
}

/// Visibility of clip - who can see the clip
#[derive(Debug, Clone, Copy, PartialEq, Eq, Structural)]
pub enum ClipVisibility {
    /// Public, everyone
    Public,
    /// Only owner
    Private,
    /// Everyone with the link
    Unlisted,
    /// Only mutual subscribers
    FriendsOnly,
}

impl ClipVisibility {
    /// The displayed form: the variant's name.
    pub open spec fn display(self) -> Seq<char> {
        match self {
            ClipVisibility::Public => "Public"@,
            ClipVisibility::Private => "Private"@,
            ClipVisibility::Unlisted => "Unlisted"@,
            ClipVisibility::FriendsOnly => "FriendsOnly"@,
        }
    }

    pub fn to_string(&self) -> (s: String)
        ensures
            s@ == self.display(),
    {
        match self {
            ClipVisibility::Public => "Public".to_owned(),
            ClipVisibility::Private => "Private".to_owned(),
            ClipVisibility::Unlisted => "Unlisted".to_owned(),
            ClipVisibility::FriendsOnly => "FriendsOnly".to_owned(),
        }
    }
}

/// The comment visibility - who can comment under a clip
#[derive(Debug, Clone, Copy, PartialEq, Eq, Structural)]
pub enum CommentVisibility {
    /// Everyone can comment
    Everyone,
    /// Only mutual subscribers can comment
    FriendsOnly,
    /// No one can comment
    NoOne,
}

/// Data of a clip hosted by the API. Times are milliseconds since the Unix epoch.
#[derive(Debug, Clone)]
pub struct ClipsResponse {
    /// Id of clip
    pub clip_id: String,
    /// Name of clip
    pub clip_name: String,
    /// Id of clip's owner
    pub user_id: String,
    /// Duration of clip in seconds
    pub duration_s: i32,
    /// Tags linked to clip
    pub tags: Vec<ClipsClipTagResponse>,
    /// Original resolution of clip
    pub resolution: Option<String>,
    /// Original bitrate of clip, in kbps
    pub bitrate_kbps: Option<i32>,
    /// Original fps of clip
    pub fps: Option<i32>,
    /// The upload status of clip
    pub clip_status: ClipsStatusType,
    /// The upload status of preview
    pub preview_status: ClipsStatusType,
    /// The upload status of thumbnail
    pub thumbnail_status: ClipsStatusType,
    /// The original file size
    pub file_size_mb: i32,
    /// Time uploaded at
    pub uploaded_at: i64,
    /// Game assosciated with clip
    pub detected_game: Option<ClipsGames>,
    /// The location of the clip of user's choice
    pub location: String,
    /// Visibility of clip
    pub clip_visibility: ClipVisibility,
    /// Visibility/Access of comments
    pub comment_visibility: CommentVisibility,
    /// All reactions, by reaction
    pub reactions: Vec<(String, i32)>,
    /// Reaction count
    pub reaction_count: i32,
    /// View count
    pub view_count: i32,
}

/// The hosted clip type used by the apps.
pub type HostedClip = ClipsResponse;

/// Metadata to be put into the multipart when uploading a clip; every field is validated.
#[derive(Debug)]
pub struct ClipsNewMetadata {
    /// The name of clip
    pub name: ClipNameSanitised,
    /// The duration
    pub duration_s: ClipDurationSanitised,
    /// The tags
    pub tags: Vec<ClipsClipTagRequest>,
    /// The original resolution
    pub resolution: Option<ResolutionSanitised>,
    /// The original bitrate
    pub bitrate_kbps: Option<BitrateKbpsSanitised>,
    /// The original fps
    pub fps: Option<FpsSanitised>,
    /// The visibility of clip
    pub clip_visibility: ClipVisibility,
    /// The game linked to clip
    pub detected_game: Option<ClipsGames>,
}

/// The request to be sent when patching a clip; each field that is present is changed.
#[derive(Debug, Clone)]
pub struct PatchClipsClipIdRequest {
    /// Visibility of clip
    pub clip_visibility: Option<ClipVisibility>,
    /// Visibility of comments
    pub comment_visibility: Option<CommentVisibility>,
    /// Name of clip
    pub name: Option<ClipNameSanitised>,
    /// Tags of clip
    pub tags: Option<Vec<ClipsClipTagRequest>>,
    /// Game Type of clip
    pub detected_game: Option<Option<ClipsGames>>,
}

} // verus!
