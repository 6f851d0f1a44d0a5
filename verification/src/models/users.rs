//! Users as the API describes them, with their storage limit and preferences.
use vstd::prelude::*;
use crate::models::clips::hosted::CommentVisibility;

verus! {

/// The storage limit of a user. Response recieved from `/users/me/limit`
#[derive(Debug, Clone)]
pub struct UsersLimitResponse {
    /// The storage limit ID
    pub limit_id: String,
    /// The storage limit name
    pub limit_name: String,
    /// The MB limit set on the storage limit
    pub limit_mb: i32,
    /// The storage limit description
    pub limit_description: Option<String>,
    /// The storage user has already used up
    pub used_mb: i64,
}

/// What search results of a user appear in a search engine
#[derive(Debug, Clone, Copy, PartialEq, Eq, Structural)]
pub enum SearchIndexingVisibility {
    /// No links
    Hidden,
    /// Only users' clips
    Clips,
    /// Only users' profile
    Profile,
    /// Both clips and profile
    ProfileAndClips,
}

/// The notifications a user receives
#[derive(Debug, Clone, Copy, PartialEq, Eq, Structural)]
pub struct NotificationPreferences {
    /// Send notification when a new follow occurs
    pub user_follow: bool,
    /// Send notification when a new clip is uploaded
    pub clip_upload: bool,
    /// Send notification when a new reaction is added to comment/clip
    pub reaction_create: bool,
    /// Send notification when a new comment is added under a comment/clip
    pub comment_create: bool,
}

impl NotificationPreferences {
    /// Every notification on.
    pub fn default() -> (n: Self)
        ensures
            n == (NotificationPreferences {
                user_follow: true,
                clip_upload: true,
                reaction_create: true,
                comment_create: true,
            }),
    {
        NotificationPreferences {
            user_follow: true,
            clip_upload: true,
            reaction_create: true,
            comment_create: true,
        }
    }
}

/// The languages a user can choose
#[derive(Debug, Clone, Copy, PartialEq, Eq, Structural)]
pub enum SupportedLanguages {
    EnUs,
}

impl SupportedLanguages {
    /// The language tag, e.g. `en-US`.
    pub open spec fn display(self) -> Seq<char> {
        match self {
            SupportedLanguages::EnUs => "en-US"@,
        }
    }

    pub fn to_string(&self) -> (s: String)
        ensures
            s@ == self.display(),
    {
        match self {
            SupportedLanguages::EnUs => "en-US".to_owned(),
        }
    }
}

/// The data of a user. Response recieved from `/users/me`; times are milliseconds since the
/// Unix epoch.
#[derive(Debug, Clone)]
pub struct UsersResponse {
    /// The ID of user
    pub user_id: String,
    /// The username of user
    pub username: String,
    /// The email of user
    pub email: String,
    /// The about me description of user
    pub about_me: Option<String>,
    /// The language identifier
    pub language: String,
    /// The geo-location of user
    pub location: String,
    /// The avatar's URL of user
    pub avatar_url: String,
    /// The storage limit that user
    pub storage_limit_id: Option<String>,
    /// Setting affecting the search index visibility
    pub search_indexing_visibility: SearchIndexingVisibility,
    /// The comment visibility to be used by default
    pub default_comment_visibility: CommentVisibility,
    /// Time of creation of user
    pub created_at: i64,
    /// Time user was last updated
    pub updated_at: i64,
    /// Time user was banned
    pub banned_at: Option<i64>,
    /// Time user was verified
    pub verified_at: Option<i64>,
    /// Time user was deleted
    pub deleted_at: Option<i64>,
}

} // verus!
