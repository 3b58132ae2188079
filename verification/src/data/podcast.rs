//! Records of the podcast section.

use vstd::prelude::*;

verus! {

/// Podcast episode status.
#[derive(Debug, Clone, PartialEq, Eq)]
pub enum PodcastStatus {
    /// New episode.
    New,
    /// Currently downloading.
    Downloading,
    /// Download completed.
    Completed,
    /// Download error.
    Error,
    /// Episode deleted.
    Deleted,
    /// Episode skipped.
    Skipped,
}

} // verus!
