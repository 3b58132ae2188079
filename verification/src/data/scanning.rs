//! Records of the scanning section.

use vstd::prelude::*;

verus! {

/// Library scan status.
#[derive(Debug, Clone, PartialEq)]
pub struct ScanStatus {
    /// Whether a scan is currently in progress.
    pub scanning: bool,
    /// Number of items scanned so far.
    pub count: Option<i64>,
}

} // verus!
