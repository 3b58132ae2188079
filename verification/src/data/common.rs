//! Records that several sections share.

use vstd::prelude::*;
use crate::data::user::User;
use crate::json::Json;

verus! {

/// A genre.
#[derive(Debug, Clone, PartialEq)]
pub struct Genre {
    /// Genre name.
    pub name: String,
    /// Number of songs in this genre.
    pub song_count: i64,
    /// Number of albums in this genre.
    pub album_count: i64,
}

/// A genre tag on a media item (simplified, just a name).
#[derive(Debug, Clone, PartialEq)]
pub struct ItemGenre {
    /// Genre name.
    pub name: String,
}

/// A date for a media item that may be partial (year only, year-month, or full date).
#[derive(Debug, Clone, PartialEq)]
pub struct ItemDate {
    /// The year.
    pub year: Option<i32>,
    /// The month (1–12).
    pub month: Option<i32>,
    /// The day (1–31).
    pub day: Option<i32>,
}

/// A disc title for an album.
#[derive(Debug, Clone, PartialEq)]
pub struct DiscTitle {
    /// The disc number.
    pub disc: i32,
    /// The name of the disc.
    pub title: String,
}

/// A record label for an album.
#[derive(Debug, Clone, PartialEq)]
pub struct RecordLabel {
    /// Label name.
    pub name: String,
}

/// A contributor artist for a song or album.
#[derive(Debug, Clone, PartialEq)]
pub struct Contributor {
    /// The contributor role (e.g. "composer", "performer").
    pub role: String,
    /// Sub-role for roles that require it (e.g. the instrument for "performer").
    pub sub_role: Option<String>,
    /// The contributing artist.
    pub artist: ArtistId3,
}

/// A music folder.
#[derive(Debug, Clone, PartialEq)]
pub struct MusicFolder {
    /// Folder ID.
    pub id: i64,
    /// Folder name.
    pub name: Option<String>,
}

/// A supported OpenSubsonic extension.
#[derive(Debug, Clone, PartialEq)]
pub struct OpenSubsonicExtension {
    /// Extension name.
    pub name: String,
    /// Supported version numbers of this extension.
    pub versions: Vec<i32>,
}

/// License information.
#[derive(Debug, Clone, PartialEq)]
pub struct License {
    /// Whether the license is valid.
    pub valid: bool,
    /// User email.
    pub email: Option<String>,
    /// License expiration date (ISO 8601).
    pub license_expires: Option<String>,
    /// Trial expiration date (ISO 8601).
    pub trial_expires: Option<String>,
}

/// Token info (OpenSubsonic extension).
#[derive(Debug, Clone, PartialEq)]
pub struct TokenInfo {
    /// Username associated with the token.
    pub username: String,
}

/// An artist from ID3 tags.
#[derive(Debug, Clone, PartialEq)]
pub struct ArtistId3 {
    /// Artist ID.
    pub id: String,
    /// Artist name.
    pub name: String,
    /// Cover art ID.
    pub cover_art: Option<String>,
    /// External image URL.
    pub artist_image_url: Option<String>,
    /// Number of albums.
    pub album_count: Option<i64>,
    /// Date the artist was starred (ISO 8601).
    pub starred: Option<String>,
    /// MusicBrainz ID.
    pub music_brainz_id: Option<String>,
    /// Sort name.
    pub sort_name: Option<String>,
    /// Roles this artist has in the library (OpenSubsonic).
    pub roles: Option<Vec<String>>,
}

/// An artist with its albums (ID3-based).
#[derive(Debug, Clone, PartialEq)]
pub struct ArtistWithAlbumsId3 {
    /// Artist ID.
    pub id: String,
    /// Artist name.
    pub name: String,
    /// Cover art ID.
    pub cover_art: Option<String>,
    /// External image URL.
    pub artist_image_url: Option<String>,
    /// Number of albums.
    pub album_count: Option<i64>,
    /// Date the artist was starred (ISO 8601).
    pub starred: Option<String>,
    /// MusicBrainz ID.
    pub music_brainz_id: Option<String>,
    /// Sort name.
    pub sort_name: Option<String>,
    /// Roles this artist has in the library (OpenSubsonic).
    pub roles: Option<Vec<String>>,
    /// The artist's albums.
    pub album: Vec<AlbumId3>,
}

/// A list of indexed artists (ID3-based).
#[derive(Debug, Clone, PartialEq)]
pub struct ArtistsId3 {
    /// Ignored articles (space-separated).
    pub ignored_articles: Option<String>,
    /// Index list (each entry groups artists by first letter).
    pub index: Vec<IndexId3>,
}

/// A single index entry in the artist list (ID3-based).
#[derive(Debug, Clone, PartialEq)]
pub struct IndexId3 {
    /// Index name (e.g. "A", "B", "#").
    pub name: String,
    /// Artists in this index.
    pub artist: Vec<ArtistId3>,
}

/// An album from ID3 tags.
#[derive(Debug, Clone, PartialEq)]
pub struct AlbumId3 {
    /// Album ID.
    pub id: String,
    /// Album name.
    pub name: String,
    /// Album version (e.g. "Remastered", "Deluxe Edition").
    pub version: Option<String>,
    /// Artist name.
    pub artist: Option<String>,
    /// Artist ID.
    pub artist_id: Option<String>,
    /// Cover art ID.
    pub cover_art: Option<String>,
    /// Number of songs.
    pub song_count: Option<i64>,
    /// Total duration in seconds.
    pub duration: Option<i64>,
    /// Play count.
    pub play_count: Option<i64>,
    /// Date added (ISO 8601).
    pub created: Option<String>,
    /// Date starred (ISO 8601).
    pub starred: Option<String>,
    /// Album year.
    pub year: Option<i32>,
    /// Genre name.
    pub genre: Option<String>,
    /// Date last played (ISO 8601).
    pub played: Option<String>,
    /// User rating (1–5).
    pub user_rating: Option<i32>,
    /// Record labels (OpenSubsonic).
    pub record_labels: Option<Vec<RecordLabel>>,
    /// MusicBrainz ID.
    pub music_brainz_id: Option<String>,
    /// All genres (OpenSubsonic).
    pub genres: Option<Vec<ItemGenre>>,
    /// All artists (OpenSubsonic).
    pub artists: Option<Vec<ArtistId3>>,
    /// Display artist string (OpenSubsonic).
    pub display_artist: Option<String>,
    /// All album releases (OpenSubsonic).
    pub releases: Option<Vec<Json>>,
    /// Release date (OpenSubsonic).
    pub original_release_date: Option<ItemDate>,
    /// Release date (OpenSubsonic).
    pub release_date: Option<ItemDate>,
    /// Whether this is a compilation (OpenSubsonic).
    pub is_compilation: Option<bool>,
    /// Sort name (OpenSubsonic).
    pub sort_name: Option<String>,
    /// Disc titles (OpenSubsonic).
    pub disc_titles: Option<Vec<DiscTitle>>,
    /// Explicit status (OpenSubsonic).
    pub explicit_status: Option<String>,
    /// Moods (OpenSubsonic).
    pub moods: Option<Vec<String>>,
}

} // verus!
