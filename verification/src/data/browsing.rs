//! Records of the browsing section.

use vstd::prelude::*;
use crate::data::common::ArtistId3;

verus! {

/// Album info (external metadata).
#[derive(Debug, Clone, PartialEq)]
pub struct AlbumInfo {
    /// Album notes/biography.
    pub notes: Option<String>,
    /// MusicBrainz ID.
    pub music_brainz_id: Option<String>,
    /// Last.fm URL.
    pub last_fm_url: Option<String>,
    /// Small image URL.
    pub small_image_url: Option<String>,
    /// Medium image URL.
    pub medium_image_url: Option<String>,
    /// Large image URL.
    pub large_image_url: Option<String>,
}

/// Artist info with similar artists (ID3-based).
#[derive(Debug, Clone, PartialEq)]
pub struct ArtistInfo2 {
    /// Artist biography.
    pub biography: Option<String>,
    /// MusicBrainz ID.
    pub music_brainz_id: Option<String>,
    /// Last.fm URL.
    pub last_fm_url: Option<String>,
    /// Small image URL.
    pub small_image_url: Option<String>,
    /// Medium image URL.
    pub medium_image_url: Option<String>,
    /// Large image URL.
    pub large_image_url: Option<String>,
    /// Similar artists (ID3).
    pub similar_artist: Vec<ArtistId3>,
}

} // verus!
