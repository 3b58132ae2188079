//! Records of the internet radio section.

use vstd::prelude::*;

verus! {

/// An internet radio station.
#[derive(Debug, Clone, PartialEq)]
pub struct InternetRadioStation {
    /// Station ID.
    pub id: String,
    /// Station name.
    pub name: String,
    /// Stream URL.
    pub stream_url: String,
    /// Home page URL.
    pub home_page_url: Option<String>,
}

} // verus!
