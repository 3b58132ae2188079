//! Playlists.

use vstd::prelude::*;
use crate::api::call::{
    asks, each_int, each_text, one, opt_flag, opt_text, Expect, ExpectView, Params, Request,
};
use crate::client::Client;

verus! {

impl Client {
    /// Get all playlists: the call of `getPlaylists`.
    pub fn get_playlists(&self, username: Option<&str>) -> (call: Request)
        ensures
            call@ == asks(
                "getPlaylists"@,
                opt_text("username"@, username),
                ExpectView::ListIn("playlists"@, "playlist"@),
            ),
    {
        let mut params = Params::new();
        params.opt_text("username", username);
        assert(params@ =~= opt_text("username"@, username));
        Request::get("getPlaylists", params, Expect::ListIn("playlists", "playlist"))
    }

    /// Get a playlist with its songs: the call of `getPlaylist`.
    pub fn get_playlist(&self, id: &str) -> (call: Request)
        ensures
            call@ == asks("getPlaylist"@, one("id"@, id@), ExpectView::Required("playlist"@)),
    {
        let mut params = Params::new();
        params.text("id", id);
        assert(params@ =~= one("id"@, id@));
        Request::get("getPlaylist", params, Expect::Required("playlist"))
    }

    /// Create or update a playlist: the call of `createPlaylist`.
    pub fn create_playlist(
        &self,
        playlist_id: Option<&str>,
        name: Option<&str>,
        song_ids: &[&str],
    ) -> (call: Request)
        ensures
            call@ == asks(
                "createPlaylist"@,
                opt_text("playlistId"@, playlist_id)
                    + opt_text("name"@, name)
                    + each_text("songId"@, song_ids@),
                ExpectView::Required("playlist"@),
            ),
    {
        let mut params = Params::new();
        params.opt_text("playlistId", playlist_id);
        params.opt_text("name", name);
        params.each_text("songId", song_ids);
        assert(params@ =~= opt_text("playlistId"@, playlist_id)
            + opt_text("name"@, name)
            + each_text("songId"@, song_ids@));
        Request::get("createPlaylist", params, Expect::Required("playlist"))
    }

    /// Update a playlist (name, comment, public status, add/remove songs):
    /// the call of `updatePlaylist`.
    pub fn update_playlist(
        &self,
        playlist_id: &str,
        name: Option<&str>,
        comment: Option<&str>,
        public: Option<bool>,
        song_ids_to_add: &[&str],
        song_indexes_to_remove: &[i32],
    ) -> (call: Request)
        ensures
            call@ == asks(
                "updatePlaylist"@,
                one("playlistId"@, playlist_id@)
                    + opt_text("name"@, name)
                    + opt_text("comment"@, comment)
                    + opt_flag("public"@, public)
                    + each_text("songIdToAdd"@, song_ids_to_add@)
                    + each_int("songIndexToRemove"@, song_indexes_to_remove@),
                ExpectView::Nothing,
            ),
    {
        let mut params = Params::new();
        params.text("playlistId", playlist_id);
        params.opt_text("name", name);
        params.opt_text("comment", comment);
        params.opt_flag("public", public);
        params.each_text("songIdToAdd", song_ids_to_add);
        params.each_int("songIndexToRemove", song_indexes_to_remove);
        assert(params@ =~= one("playlistId"@, playlist_id@)
            + opt_text("name"@, name)
            + opt_text("comment"@, comment)
            + opt_flag("public"@, public)
            + each_text("songIdToAdd"@, song_ids_to_add@)
            + each_int("songIndexToRemove"@, song_indexes_to_remove@));
        Request::get("updatePlaylist", params, Expect::Nothing)
    }

    /// Delete a playlist: the call of `deletePlaylist`.
    pub fn delete_playlist(&self, id: &str) -> (call: Request)
        ensures
            call@ == asks("deletePlaylist"@, one("id"@, id@), ExpectView::Nothing),
    {
        let mut params = Params::new();
        params.text("id", id);
        assert(params@ =~= one("id"@, id@));
        Request::get("deletePlaylist", params, Expect::Nothing)
    }
}

} // verus!
