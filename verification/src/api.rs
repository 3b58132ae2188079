//! The calls of the protocol, section by section.
//!
//! A call is described here, not made: each function gives the endpoint, the
//! parameters in the order in which they are sent, and the place of the result
//! in the answer.

pub mod bookmarks;
pub mod browsing;
pub mod call;
pub mod chat;
pub mod internet_radio;
pub mod jukebox;
pub mod lists;
pub mod media_annotation;
pub mod media_retrieval;
pub mod playlists;
pub mod podcast;
pub mod scanning;
pub mod searching;
pub mod sharing;
pub mod system;
pub mod transcoding;
pub mod user_management;
