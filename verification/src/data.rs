//! The records that the server's answers are read into.

pub mod browsing;
pub mod chat;
pub mod common;
pub mod media;
pub mod playlists;
pub mod podcast;
pub mod radio;
pub mod scanning;
pub mod transcoding;
pub mod user;

pub use browsing::{AlbumInfo, ArtistInfo2};
pub use chat::ChatMessage;
pub use common::{
    AlbumId3, ArtistId3, ArtistWithAlbumsId3, ArtistsId3, Contributor, DiscTitle, Genre, IndexId3,
    ItemDate, ItemGenre, License, MusicFolder, OpenSubsonicExtension, RecordLabel, TokenInfo,
};
pub use media::Lyrics;
pub use playlists::Playlist;
pub use podcast::PodcastStatus;
pub use radio::InternetRadioStation;
pub use scanning::ScanStatus;
pub use transcoding::{
    ClientInfo, CodecProfile, DirectPlayProfile, Limitation, StreamDetails, TranscodeDecision,
    TranscodingProfile,
};
pub use user::User;
