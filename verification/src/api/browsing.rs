//! Browsing the library.

use vstd::prelude::*;
use crate::api::call::{
    asks, one, opt_flag, opt_int, opt_long, opt_text, Expect, ExpectView, Params, Request,
};
use crate::client::Client;

verus! {

impl Client {
    /// Get all configured music folders: the call of `getMusicFolders`.
    pub fn get_music_folders(&self) -> (call: Request)
        ensures
            call@ == asks(
                "getMusicFolders"@,
                Seq::empty(),
                ExpectView::ListIn("musicFolders"@, "musicFolder"@),
            ),
    {
        let params = Params::new();
        Request::get("getMusicFolders", params, Expect::ListIn("musicFolders", "musicFolder"))
    }

    /// Get an indexed structure of all artists (folder-based):
    /// the call of `getIndexes`.
    pub fn get_indexes(
        &self,
        music_folder_id: Option<&str>,
        if_modified_since: Option<i64>,
    ) -> (call: Request)
        ensures
            call@ == asks(
                "getIndexes"@,
                opt_text("musicFolderId"@, music_folder_id)
                    + opt_long("ifModifiedSince"@, if_modified_since),
                ExpectView::Required("indexes"@),
            ),
    {
        let mut params = Params::new();
        params.opt_text("musicFolderId", music_folder_id);
        params.opt_long("ifModifiedSince", if_modified_since);
        assert(params@ =~= opt_text("musicFolderId"@, music_folder_id)
            + opt_long("ifModifiedSince"@, if_modified_since));
        Request::get("getIndexes", params, Expect::Required("indexes"))
    }

    /// Get a directory listing (folder-based browsing):
    /// the call of `getMusicDirectory`.
    pub fn get_music_directory(&self, id: &str) -> (call: Request)
        ensures
            call@ == asks(
                "getMusicDirectory"@,
                one("id"@, id@),
                ExpectView::Required("directory"@),
            ),
    {
        let mut params = Params::new();
        params.text("id", id);
        assert(params@ =~= one("id"@, id@));
        Request::get("getMusicDirectory", params, Expect::Required("directory"))
    }

    /// Get all genres: the call of `getGenres`.
    pub fn get_genres(&self) -> (call: Request)
        ensures
            call@ == asks("getGenres"@, Seq::empty(), ExpectView::ListIn("genres"@, "genre"@)),
    {
        let params = Params::new();
        Request::get("getGenres", params, Expect::ListIn("genres", "genre"))
    }

    /// Get all artists (ID3-based): the call of `getArtists`.
    pub fn get_artists(&self, music_folder_id: Option<&str>) -> (call: Request)
        ensures
            call@ == asks(
                "getArtists"@,
                opt_text("musicFolderId"@, music_folder_id),
                ExpectView::Required("artists"@),
            ),
    {
        let mut params = Params::new();
        params.opt_text("musicFolderId", music_folder_id);
        assert(params@ =~= opt_text("musicFolderId"@, music_folder_id));
        Request::get("getArtists", params, Expect::Required("artists"))
    }

    /// Get details for an artist, including a list of albums (ID3-based):
    /// the call of `getArtist`.
    pub fn get_artist(&self, id: &str) -> (call: Request)
        ensures
            call@ == asks("getArtist"@, one("id"@, id@), ExpectView::Required("artist"@)),
    {
        let mut params = Params::new();
        params.text("id", id);
        assert(params@ =~= one("id"@, id@));
        Request::get("getArtist", params, Expect::Required("artist"))
    }

    /// Get details for an album, including a list of songs (ID3-based):
    /// the call of `getAlbum`.
    pub fn get_album(&self, id: &str) -> (call: Request)
        ensures
            call@ == asks("getAlbum"@, one("id"@, id@), ExpectView::Required("album"@)),
    {
        let mut params = Params::new();
        params.text("id", id);
        assert(params@ =~= one("id"@, id@));
        Request::get("getAlbum", params, Expect::Required("album"))
    }

    /// Get details for a song: the call of `getSong`.
    pub fn get_song(&self, id: &str) -> (call: Request)
        ensures
            call@ == asks("getSong"@, one("id"@, id@), ExpectView::Required("song"@)),
    {
        let mut params = Params::new();
        params.text("id", id);
        assert(params@ =~= one("id"@, id@));
        Request::get("getSong", params, Expect::Required("song"))
    }

    /// Get all video files: the call of `getVideos`.
    pub fn get_videos(&self) -> (call: Request)
        ensures
            call@ == asks("getVideos"@, Seq::empty(), ExpectView::ListIn("videos"@, "video"@)),
    {
        let params = Params::new();
        Request::get("getVideos", params, Expect::ListIn("videos", "video"))
    }

    /// Get artist info (folder-based): the call of `getArtistInfo`.
    pub fn get_artist_info(
        &self,
        id: &str,
        count: Option<i32>,
        include_not_present: Option<bool>,
    ) -> (call: Request)
        ensures
            call@ == asks(
                "getArtistInfo"@,
                one("id"@, id@)
                    + opt_int("count"@, count)
                    + opt_flag("includeNotPresent"@, include_not_present),
                ExpectView::Required("artistInfo"@),
            ),
    {
        let mut params = Params::new();
        params.text("id", id);
        params.opt_int("count", count);
        params.opt_flag("includeNotPresent", include_not_present);
        assert(params@ =~= one("id"@, id@)
            + opt_int("count"@, count)
            + opt_flag("includeNotPresent"@, include_not_present));
        Request::get("getArtistInfo", params, Expect::Required("artistInfo"))
    }

    /// Get artist info (ID3-based): the call of `getArtistInfo2`.
    pub fn get_artist_info2(
        &self,
        id: &str,
        count: Option<i32>,
        include_not_present: Option<bool>,
    ) -> (call: Request)
        ensures
            call@ == asks(
                "getArtistInfo2"@,
                one("id"@, id@)
                    + opt_int("count"@, count)
                    + opt_flag("includeNotPresent"@, include_not_present),
                ExpectView::Required("artistInfo2"@),
            ),
    {
        let mut params = Params::new();
        params.text("id", id);
        params.opt_int("count", count);
        params.opt_flag("includeNotPresent", include_not_present);
        assert(params@ =~= one("id"@, id@)
            + opt_int("count"@, count)
            + opt_flag("includeNotPresent"@, include_not_present));
        Request::get("getArtistInfo2", params, Expect::Required("artistInfo2"))
    }

    /// Get album info (external metadata): the call of `getAlbumInfo`.
    pub fn get_album_info(&self, id: &str) -> (call: Request)
        ensures
            call@ == asks("getAlbumInfo"@, one("id"@, id@), ExpectView::Required("albumInfo"@)),
    {
        let mut params = Params::new();
        params.text("id", id);
        assert(params@ =~= one("id"@, id@));
        Request::get("getAlbumInfo", params, Expect::Required("albumInfo"))
    }

    /// Get album info (ID3-based): the call of `getAlbumInfo2`.
    pub fn get_album_info2(&self, id: &str) -> (call: Request)
        ensures
            call@ == asks("getAlbumInfo2"@, one("id"@, id@), ExpectView::Required("albumInfo"@)),
    {
        let mut params = Params::new();
        params.text("id", id);
        assert(params@ =~= one("id"@, id@));
        Request::get("getAlbumInfo2", params, Expect::Required("albumInfo"))
    }

    /// Get similar songs (folder-based): the call of `getSimilarSongs`.
    pub fn get_similar_songs(&self, id: &str, count: Option<i32>) -> (call: Request)
        ensures
            call@ == asks(
                "getSimilarSongs"@,
                one("id"@, id@) + opt_int("count"@, count),
                ExpectView::ListIn("similarSongs"@, "song"@),
            ),
    {
        let mut params = Params::new();
        params.text("id", id);
        params.opt_int("count", count);
        assert(params@ =~= one("id"@, id@) + opt_int("count"@, count));
        Request::get("getSimilarSongs", params, Expect::ListIn("similarSongs", "song"))
    }

    /// Get similar songs (ID3-based): the call of `getSimilarSongs2`.
    pub fn get_similar_songs2(&self, id: &str, count: Option<i32>) -> (call: Request)
        ensures
            call@ == asks(
                "getSimilarSongs2"@,
                one("id"@, id@) + opt_int("count"@, count),
                ExpectView::ListIn("similarSongs2"@, "song"@),
            ),
    {
        let mut params = Params::new();
        params.text("id", id);
        params.opt_int("count", count);
        assert(params@ =~= one("id"@, id@) + opt_int("count"@, count));
        Request::get("getSimilarSongs2", params, Expect::ListIn("similarSongs2", "song"))
    }

    /// Get top songs for an artist: the call of `getTopSongs`.
    pub fn get_top_songs(&self, artist: &str, count: Option<i32>) -> (call: Request)
        ensures
            call@ == asks(
                "getTopSongs"@,
                one("artist"@, artist@) + opt_int("count"@, count),
                ExpectView::ListIn("topSongs"@, "song"@),
            ),
    {
        let mut params = Params::new();
        params.text("artist", artist);
        params.opt_int("count", count);
        assert(params@ =~= one("artist"@, artist@) + opt_int("count"@, count));
        Request::get("getTopSongs", params, Expect::ListIn("topSongs", "song"))
    }
}

} // verus!
