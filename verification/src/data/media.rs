//! Records of the media retrieval section.

use vstd::prelude::*;

verus! {

/// Lyrics for a song (legacy, unstructured).
#[derive(Debug, Clone, PartialEq)]
pub struct Lyrics {
    /// The lyrics text.
    pub value: Option<String>,
    /// Artist name.
    pub artist: Option<String>,
    /// Song title.
    pub title: Option<String>,
}

} // verus!
