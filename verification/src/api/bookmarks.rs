//! Bookmarks and play queues.

use vstd::prelude::*;
use crate::api::call::{
    asks, each_text, one, opt_int, opt_long, opt_text, Expect, ExpectView, Params, Request,
};
use crate::client::Client;
use crate::text::{decimal_text};

verus! {

impl Client {
    /// Get all bookmarks: the call of `getBookmarks`.
    pub fn get_bookmarks(&self) -> (call: Request)
        ensures
            call@ == asks(
                "getBookmarks"@,
                Seq::empty(),
                ExpectView::ListIn("bookmarks"@, "bookmark"@),
            ),
    {
        let params = Params::new();
        Request::get("getBookmarks", params, Expect::ListIn("bookmarks", "bookmark"))
    }

    /// Create or update a bookmark: the call of `createBookmark`.
    pub fn create_bookmark(&self, id: &str, position: i64, comment: Option<&str>) -> (call: Request)
        ensures
            call@ == asks(
                "createBookmark"@,
                one("id"@, id@)
                    + one("position"@, decimal_text(position as int))
                    + opt_text("comment"@, comment),
                ExpectView::Nothing,
            ),
    {
        let mut params = Params::new();
        params.text("id", id);
        params.long("position", position);
        params.opt_text("comment", comment);
        assert(params@ =~= one("id"@, id@)
            + one("position"@, decimal_text(position as int))
            + opt_text("comment"@, comment));
        Request::get("createBookmark", params, Expect::Nothing)
    }

    /// Delete a bookmark: the call of `deleteBookmark`.
    pub fn delete_bookmark(&self, id: &str) -> (call: Request)
        ensures
            call@ == asks("deleteBookmark"@, one("id"@, id@), ExpectView::Nothing),
    {
        let mut params = Params::new();
        params.text("id", id);
        assert(params@ =~= one("id"@, id@));
        Request::get("deleteBookmark", params, Expect::Nothing)
    }

    /// Get the play queue (current playlist/position saved by a client):
    /// the call of `getPlayQueue`.
    pub fn get_play_queue(&self) -> (call: Request)
        ensures
            call@ == asks("getPlayQueue"@, Seq::empty(), ExpectView::Required("playQueue"@)),
    {
        let params = Params::new();
        Request::get("getPlayQueue", params, Expect::Required("playQueue"))
    }

    /// Save the play queue: the call of `savePlayQueue`.
    pub fn save_play_queue(
        &self,
        ids: &[&str],
        current: Option<&str>,
        position: Option<i64>,
    ) -> (call: Request)
        ensures
            call@ == asks(
                "savePlayQueue"@,
                each_text("id"@, ids@)
                    + opt_text("current"@, current)
                    + opt_long("position"@, position),
                ExpectView::Nothing,
            ),
    {
        let mut params = Params::new();
        params.each_text("id", ids);
        params.opt_text("current", current);
        params.opt_long("position", position);
        assert(params@ =~= each_text("id"@, ids@)
            + opt_text("current"@, current)
            + opt_long("position"@, position));
        Request::get("savePlayQueue", params, Expect::Nothing)
    }

    /// Get the play queue by index (OpenSubsonic extension):
    /// the call of `getPlayQueueByIndex`.
    pub fn get_play_queue_by_index(&self) -> (call: Request)
        ensures
            call@ == asks(
                "getPlayQueueByIndex"@,
                Seq::empty(),
                ExpectView::Required("playQueueByIndex"@),
            ),
    {
        let params = Params::new();
        Request::get("getPlayQueueByIndex", params, Expect::Required("playQueueByIndex"))
    }

    /// Save the play queue by index (OpenSubsonic extension):
    /// the call of `savePlayQueueByIndex`.
    pub fn save_play_queue_by_index(
        &self,
        ids: &[&str],
        current_index: Option<i32>,
        position: Option<i64>,
    ) -> (call: Request)
        ensures
            call@ == asks(
                "savePlayQueueByIndex"@,
                each_text("id"@, ids@)
                    + opt_int("currentIndex"@, current_index)
                    + opt_long("position"@, position),
                ExpectView::Nothing,
            ),
    {
        let mut params = Params::new();
        params.each_text("id", ids);
        params.opt_int("currentIndex", current_index);
        params.opt_long("position", position);
        assert(params@ =~= each_text("id"@, ids@)
            + opt_int("currentIndex"@, current_index)
            + opt_long("position"@, position));
        Request::get("savePlayQueueByIndex", params, Expect::Nothing)
    }
}

} // verus!
