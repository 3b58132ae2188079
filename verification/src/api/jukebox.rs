//! The jukebox.

use vstd::prelude::*;
use crate::api::call::{
    asks, each_text, one, opt_int, opt_text, Expect, ExpectView, Params, Request,
};
use crate::client::Client;

verus! {

/// What the jukebox can be told to do.
#[derive(Debug, Clone, Copy, PartialEq, Eq, Structural)]
pub enum JukeboxAction {
    Get,
    Status,
    SetQueue,
    Start,
    Stop,
    Skip,
    Add,
    Clear,
    Remove,
    Shuffle,
    SetGain,
}

impl JukeboxAction {
    /// The word that the protocol has for this action.
    pub open spec fn name(self) -> Seq<char> {
        match self {
            JukeboxAction::Get => "get"@,
            JukeboxAction::Status => "status"@,
            JukeboxAction::SetQueue => "set"@,
            JukeboxAction::Start => "start"@,
            JukeboxAction::Stop => "stop"@,
            JukeboxAction::Skip => "skip"@,
            JukeboxAction::Add => "add"@,
            JukeboxAction::Clear => "clear"@,
            JukeboxAction::Remove => "remove"@,
            JukeboxAction::Shuffle => "shuffle"@,
            JukeboxAction::SetGain => "setGain"@,
        }
    }

    /// The word that the protocol has for this action.
    pub fn as_str(self) -> (s: &'static str)
        ensures
            s@ == self.name(),
    {
        match self {
            JukeboxAction::Get => "get",
            JukeboxAction::Status => "status",
            JukeboxAction::SetQueue => "set",
            JukeboxAction::Start => "start",
            JukeboxAction::Stop => "stop",
            JukeboxAction::Skip => "skip",
            JukeboxAction::Add => "add",
            JukeboxAction::Clear => "clear",
            JukeboxAction::Remove => "remove",
            JukeboxAction::Shuffle => "shuffle",
            JukeboxAction::SetGain => "setGain",
        }
    }

    /// The member of the answer that holds the result of this action: the
    /// playlist for `get`, the status for every other.
    pub open spec fn answer(self) -> Seq<char> {
        if self == JukeboxAction::Get {
            "jukeboxPlaylist"@
        } else {
            "jukeboxStatus"@
        }
    }
}

impl Client {
    /// Control the jukebox (server-side playback). The gain is handed over
    /// as the text that is to be sent.
    pub fn jukebox_control(
        &self,
        action: JukeboxAction,
        index: Option<i32>,
        offset: Option<i32>,
        ids: &[&str],
        gain: Option<&str>,
    ) -> (call: Request)
        ensures
            call@ == asks(
                "jukeboxControl"@,
                one("action"@, action.name())
                    + opt_int("index"@, index)
                    + opt_int("offset"@, offset)
                    + each_text("id"@, ids@)
                    + opt_text("gain"@, gain),
                ExpectView::Required(action.answer()),
            ),
    {
        let mut params = Params::new();
        params.text("action", action.as_str());
        params.opt_int("index", index);
        params.opt_int("offset", offset);
        params.each_text("id", ids);
        params.opt_text("gain", gain);
        assert(params@ =~= one("action"@, action.name())
            + opt_int("index"@, index)
            + opt_int("offset"@, offset)
            + each_text("id"@, ids@)
            + opt_text("gain"@, gain));
        let expects = match action {
            JukeboxAction::Get => Expect::Required("jukeboxPlaylist"),
            _ => Expect::Required("jukeboxStatus"),
        };
        Request::get("jukeboxControl", params, expects)
    }
}

} // verus!
