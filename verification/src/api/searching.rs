//! Searching.

use vstd::prelude::*;
use crate::api::call::{asks, one, opt_int, opt_long, opt_text, Expect, ExpectView, Params, Request};
use crate::client::Client;

verus! {

impl Client {
    /// Search (legacy, pre-1.4.0): the call of `search`.
    pub fn search(
        &self,
        artist: Option<&str>,
        album: Option<&str>,
        title: Option<&str>,
        any: Option<&str>,
        count: Option<i32>,
        offset: Option<i32>,
        newer_than: Option<i64>,
    ) -> (call: Request)
        ensures
            call@ == asks(
                "search"@,
                opt_text("artist"@, artist)
                    + opt_text("album"@, album)
                    + opt_text("title"@, title)
                    + opt_text("any"@, any)
                    + opt_int("count"@, count)
                    + opt_int("offset"@, offset)
                    + opt_long("newerThan"@, newer_than),
                ExpectView::ObjectOr("searchResult"@),
            ),
    {
        let mut params = Params::new();
        params.opt_text("artist", artist);
        params.opt_text("album", album);
        params.opt_text("title", title);
        params.opt_text("any", any);
        params.opt_int("count", count);
        params.opt_int("offset", offset);
        params.opt_long("newerThan", newer_than);
        assert(params@ =~= opt_text("artist"@, artist)
            + opt_text("album"@, album)
            + opt_text("title"@, title)
            + opt_text("any"@, any)
            + opt_int("count"@, count)
            + opt_int("offset"@, offset)
            + opt_long("newerThan"@, newer_than));
        Request::get("search", params, Expect::ObjectOr("searchResult"))
    }

    /// Search (folder-based, search2): the call of `search2`.
    pub fn search2(
        &self,
        query: &str,
        artist_count: Option<i32>,
        artist_offset: Option<i32>,
        album_count: Option<i32>,
        album_offset: Option<i32>,
        song_count: Option<i32>,
        song_offset: Option<i32>,
        music_folder_id: Option<&str>,
    ) -> (call: Request)
        ensures
            call@ == asks(
                "search2"@,
                one("query"@, query@)
                    + opt_int("artistCount"@, artist_count)
                    + opt_int("artistOffset"@, artist_offset)
                    + opt_int("albumCount"@, album_count)
                    + opt_int("albumOffset"@, album_offset)
                    + opt_int("songCount"@, song_count)
                    + opt_int("songOffset"@, song_offset)
                    + opt_text("musicFolderId"@, music_folder_id),
                ExpectView::Required("searchResult2"@),
            ),
    {
        let mut params = Params::new();
        params.text("query", query);
        params.opt_int("artistCount", artist_count);
        params.opt_int("artistOffset", artist_offset);
        params.opt_int("albumCount", album_count);
        params.opt_int("albumOffset", album_offset);
        params.opt_int("songCount", song_count);
        params.opt_int("songOffset", song_offset);
        params.opt_text("musicFolderId", music_folder_id);
        assert(params@ =~= one("query"@, query@)
            + opt_int("artistCount"@, artist_count)
            + opt_int("artistOffset"@, artist_offset)
            + opt_int("albumCount"@, album_count)
            + opt_int("albumOffset"@, album_offset)
            + opt_int("songCount"@, song_count)
            + opt_int("songOffset"@, song_offset)
            + opt_text("musicFolderId"@, music_folder_id));
        Request::get("search2", params, Expect::Required("searchResult2"))
    }

    /// Search (ID3-based, search3): the call of `search3`.
    pub fn search3(
        &self,
        query: &str,
        artist_count: Option<i32>,
        artist_offset: Option<i32>,
        album_count: Option<i32>,
        album_offset: Option<i32>,
        song_count: Option<i32>,
        song_offset: Option<i32>,
        music_folder_id: Option<&str>,
    ) -> (call: Request)
        ensures
            call@ == asks(
                "search3"@,
                one("query"@, query@)
                    + opt_int("artistCount"@, artist_count)
                    + opt_int("artistOffset"@, artist_offset)
                    + opt_int("albumCount"@, album_count)
                    + opt_int("albumOffset"@, album_offset)
                    + opt_int("songCount"@, song_count)
                    + opt_int("songOffset"@, song_offset)
                    + opt_text("musicFolderId"@, music_folder_id),
                ExpectView::Required("searchResult3"@),
            ),
    {
        let mut params = Params::new();
        params.text("query", query);
        params.opt_int("artistCount", artist_count);
        params.opt_int("artistOffset", artist_offset);
        params.opt_int("albumCount", album_count);
        params.opt_int("albumOffset", album_offset);
        params.opt_int("songCount", song_count);
        params.opt_int("songOffset", song_offset);
        params.opt_text("musicFolderId", music_folder_id);
        assert(params@ =~= one("query"@, query@)
            + opt_int("artistCount"@, artist_count)
            + opt_int("artistOffset"@, artist_offset)
            + opt_int("albumCount"@, album_count)
            + opt_int("albumOffset"@, album_offset)
            + opt_int("songCount"@, song_count)
            + opt_int("songOffset"@, song_offset)
            + opt_text("musicFolderId"@, music_folder_id));
        Request::get("search3", params, Expect::Required("searchResult3"))
    }
}

} // verus!
