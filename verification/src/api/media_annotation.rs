//! Stars, ratings and scrobbles.

use vstd::prelude::*;
use crate::api::call::{
    asks, each_text, one, opt_flag, opt_long, Expect, ExpectView, Params, Request,
};
use crate::client::Client;
use crate::text::{decimal_text};

verus! {

impl Client {
    /// Star songs, albums, or artists: the call of `star`.
    pub fn star(&self, ids: &[&str], album_ids: &[&str], artist_ids: &[&str]) -> (call: Request)
        ensures
            call@ == asks(
                "star"@,
                each_text("id"@, ids@)
                    + each_text("albumId"@, album_ids@)
                    + each_text("artistId"@, artist_ids@),
                ExpectView::Nothing,
            ),
    {
        let mut params = Params::new();
        params.each_text("id", ids);
        params.each_text("albumId", album_ids);
        params.each_text("artistId", artist_ids);
        assert(params@ =~= each_text("id"@, ids@)
            + each_text("albumId"@, album_ids@)
            + each_text("artistId"@, artist_ids@));
        Request::get("star", params, Expect::Nothing)
    }

    /// Unstar songs, albums, or artists: the call of `unstar`.
    pub fn unstar(&self, ids: &[&str], album_ids: &[&str], artist_ids: &[&str]) -> (call: Request)
        ensures
            call@ == asks(
                "unstar"@,
                each_text("id"@, ids@)
                    + each_text("albumId"@, album_ids@)
                    + each_text("artistId"@, artist_ids@),
                ExpectView::Nothing,
            ),
    {
        let mut params = Params::new();
        params.each_text("id", ids);
        params.each_text("albumId", album_ids);
        params.each_text("artistId", artist_ids);
        assert(params@ =~= each_text("id"@, ids@)
            + each_text("albumId"@, album_ids@)
            + each_text("artistId"@, artist_ids@));
        Request::get("unstar", params, Expect::Nothing)
    }

    /// Set the rating of a song, album, or artist: the call of `setRating`.
    pub fn set_rating(&self, id: &str, rating: i32) -> (call: Request)
        ensures
            call@ == asks(
                "setRating"@,
                one("id"@, id@) + one("rating"@, decimal_text(rating as int)),
                ExpectView::Nothing,
            ),
    {
        let mut params = Params::new();
        params.text("id", id);
        params.number("rating", rating);
        assert(params@ =~= one("id"@, id@) + one("rating"@, decimal_text(rating as int)));
        Request::get("setRating", params, Expect::Nothing)
    }

    /// Register a song as played (scrobble): the call of `scrobble`.
    pub fn scrobble(&self, id: &str, time: Option<i64>, submission: Option<bool>) -> (call: Request)
        ensures
            call@ == asks(
                "scrobble"@,
                one("id"@, id@) + opt_long("time"@, time) + opt_flag("submission"@, submission),
                ExpectView::Nothing,
            ),
    {
        let mut params = Params::new();
        params.text("id", id);
        params.opt_long("time", time);
        params.opt_flag("submission", submission);
        assert(params@ =~= one("id"@, id@)
            + opt_long("time"@, time)
            + opt_flag("submission"@, submission));
        Request::get("scrobble", params, Expect::Nothing)
    }
}

} // verus!
