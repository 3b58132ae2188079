//! Records of the chat section.

use vstd::prelude::*;

verus! {

/// A chat message.
#[derive(Debug, Clone, PartialEq)]
pub struct ChatMessage {
    /// Username of the sender.
    pub username: String,
    /// Timestamp in milliseconds since epoch (Jan 1, 1970).
    pub time: i64,
    /// Message text.
    pub message: String,
}

} // verus!
