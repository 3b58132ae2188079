//! Transport core of a client for the Subsonic / OpenSubsonic REST protocol.
//!
//! The crate turns a method call into the URL of a signed request and the
//! server's JSON envelope into a payload or a structured error. Everything in
//! it is computation on values; sending a request is left to the caller.
//!
//! - [`auth`]: the credentials that each request carries.
//! - [`client`] and [`request`]: the client's configuration and the URL of a
//!   request.
//! - [`envelope`]: the wrapper of every answer, and what it reports.
//! - [`binary`]: the guard of the endpoints that answer with raw bytes.
//! - [`api`]: the calls of the protocol, each with its parameters and the
//!   place of its result.
//! - [`data`]: the records that results are read into.
//! - [`error`]: what can go wrong.
//! - [`json`], [`text`], [`hex`]: values and texts that the rest builds on.
//!
//! Functions carry contracts over mathematical models of their arguments and
//! results; what is taken on trust of other libraries is said where it is used.

pub mod api;
pub mod auth;
pub mod binary;
pub mod client;
pub mod data;
pub mod envelope;
pub mod error;
pub mod hex;
pub mod json;
pub mod outside;
pub mod request;
pub mod text;

pub use api::jukebox::JukeboxAction;
pub use api::lists::AlbumListType;
pub use auth::Auth;
pub use client::Client;
pub use error::{Error, SubsonicApiError, SubsonicErrorCode};
