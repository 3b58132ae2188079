//! The chat.

use vstd::prelude::*;
use crate::api::call::{asks, one, opt_long, Expect, ExpectView, Params, Request};
use crate::client::Client;

verus! {

impl Client {
    /// Get chat messages: the call of `getChatMessages`.
    pub fn get_chat_messages(&self, since: Option<i64>) -> (call: Request)
        ensures
            call@ == asks(
                "getChatMessages"@,
                opt_long("since"@, since),
                ExpectView::ListIn("chatMessages"@, "chatMessage"@),
            ),
    {
        let mut params = Params::new();
        params.opt_long("since", since);
        assert(params@ =~= opt_long("since"@, since));
        Request::get("getChatMessages", params, Expect::ListIn("chatMessages", "chatMessage"))
    }

    /// Add a chat message: the call of `addChatMessage`.
    pub fn add_chat_message(&self, message: &str) -> (call: Request)
        ensures
            call@ == asks("addChatMessage"@, one("message"@, message@), ExpectView::Nothing),
    {
        let mut params = Params::new();
        params.text("message", message);
        assert(params@ =~= one("message"@, message@));
        Request::get("addChatMessage", params, Expect::Nothing)
    }
}

} // verus!
