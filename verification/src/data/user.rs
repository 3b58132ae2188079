//! Records of the user management section.

use vstd::prelude::*;
use crate::data::playlists::Playlist;

verus! {

/// A Subsonic user.
#[derive(Debug, Clone, PartialEq)]
pub struct User {
    /// Username.
    pub username: String,
    /// Whether scrobbling is enabled.
    pub scrobbling_enabled: Option<bool>,
    /// Max bitrate (kbps).
    pub max_bit_rate: Option<i32>,
    /// Admin role.
    pub admin_role: Option<bool>,
    /// Settings role.
    pub settings_role: Option<bool>,
    /// Download role.
    pub download_role: Option<bool>,
    /// Upload role.
    pub upload_role: Option<bool>,
    /// Playlist role.
    pub playlist_role: Option<bool>,
    /// Cover art role.
    pub cover_art_role: Option<bool>,
    /// Comment role.
    pub comment_role: Option<bool>,
    /// Podcast role.
    pub podcast_role: Option<bool>,
    /// Stream role.
    pub stream_role: Option<bool>,
    /// Jukebox role.
    pub jukebox_role: Option<bool>,
    /// Share role.
    pub share_role: Option<bool>,
    /// Video conversion role.
    pub video_conversion_role: Option<bool>,
    /// Date avatar was last changed (ISO 8601).
    pub avatar_last_changed: Option<String>,
    /// Accessible music folder IDs.
    pub folder: Vec<i64>,
    /// Email address.
    pub email: Option<String>,
}

} // verus!
