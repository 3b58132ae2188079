//! Records of the playlists section.

use vstd::prelude::*;

verus! {

/// A playlist (without songs).
#[derive(Debug, Clone, PartialEq)]
pub struct Playlist {
    /// Playlist ID.
    pub id: String,
    /// Playlist name.
    pub name: String,
    /// Comment.
    pub comment: Option<String>,
    /// Owner username.
    pub owner: Option<String>,
    /// Whether the playlist is public.
    pub public: Option<bool>,
    /// Number of songs.
    pub song_count: Option<i64>,
    /// Total duration in seconds.
    pub duration: Option<i64>,
    /// Date created (ISO 8601).
    pub created: Option<String>,
    /// Date last changed (ISO 8601).
    pub changed: Option<String>,
    /// Cover art ID.
    pub cover_art: Option<String>,
    /// Allowed users.
    pub allowed_user: Vec<String>,
    /// Whether the playlist is read-only for the current user (OpenSubsonic).
    pub readonly: Option<bool>,
    /// Date until playlist contents are valid for caching (ISO 8601, OpenSubsonic).
    pub valid_until: Option<String>,
}

} // verus!
