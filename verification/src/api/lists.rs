//! Lists of albums and songs.

use vstd::prelude::*;
use crate::api::call::{asks, one, opt_int, opt_text, Expect, ExpectView, Params, Request};
use crate::client::Client;

verus! {

/// The ways in which a list of albums can be ordered or chosen.
#[derive(Debug, Clone, Copy, PartialEq, Eq, Structural)]
pub enum AlbumListType {
    Random,
    Newest,
    Highest,
    Frequent,
    Recent,
    AlphabeticalByName,
    AlphabeticalByArtist,
    Starred,
    ByYear,
    ByGenre,
}

impl AlbumListType {
    /// The word that the protocol has for this kind of list.
    pub open spec fn name(self) -> Seq<char> {
        match self {
            AlbumListType::Random => "random"@,
            AlbumListType::Newest => "newest"@,
            AlbumListType::Highest => "highest"@,
            AlbumListType::Frequent => "frequent"@,
            AlbumListType::Recent => "recent"@,
            AlbumListType::AlphabeticalByName => "alphabeticalByName"@,
            AlbumListType::AlphabeticalByArtist => "alphabeticalByArtist"@,
            AlbumListType::Starred => "starred"@,
            AlbumListType::ByYear => "byYear"@,
            AlbumListType::ByGenre => "byGenre"@,
        }
    }

    /// The word that the protocol has for this kind of list.
    pub fn as_str(self) -> (s: &'static str)
        ensures
            s@ == self.name(),
    {
        match self {
            AlbumListType::Random => "random",
            AlbumListType::Newest => "newest",
            AlbumListType::Highest => "highest",
            AlbumListType::Frequent => "frequent",
            AlbumListType::Recent => "recent",
            AlbumListType::AlphabeticalByName => "alphabeticalByName",
            AlbumListType::AlphabeticalByArtist => "alphabeticalByArtist",
            AlbumListType::Starred => "starred",
            AlbumListType::ByYear => "byYear",
            AlbumListType::ByGenre => "byGenre",
        }
    }
}

impl Client {
    /// Get a list of albums (folder-based): the call of `getAlbumList`.
    pub fn get_album_list(
        &self,
        list_type: AlbumListType,
        size: Option<i32>,
        offset: Option<i32>,
        from_year: Option<i32>,
        to_year: Option<i32>,
        genre: Option<&str>,
        music_folder_id: Option<&str>,
    ) -> (call: Request)
        ensures
            call@ == asks(
                "getAlbumList"@,
                one("type"@, list_type.name())
                    + opt_int("size"@, size)
                    + opt_int("offset"@, offset)
                    + opt_int("fromYear"@, from_year)
                    + opt_int("toYear"@, to_year)
                    + opt_text("genre"@, genre)
                    + opt_text("musicFolderId"@, music_folder_id),
                ExpectView::ListIn("albumList"@, "album"@),
            ),
    {
        let mut params = Params::new();
        params.text("type", list_type.as_str());
        params.opt_int("size", size);
        params.opt_int("offset", offset);
        params.opt_int("fromYear", from_year);
        params.opt_int("toYear", to_year);
        params.opt_text("genre", genre);
        params.opt_text("musicFolderId", music_folder_id);
        assert(params@ =~= one("type"@, list_type.name())
            + opt_int("size"@, size)
            + opt_int("offset"@, offset)
            + opt_int("fromYear"@, from_year)
            + opt_int("toYear"@, to_year)
            + opt_text("genre"@, genre)
            + opt_text("musicFolderId"@, music_folder_id));
        Request::get("getAlbumList", params, Expect::ListIn("albumList", "album"))
    }

    /// Get a list of albums (ID3-based): the call of `getAlbumList2`.
    pub fn get_album_list2(
        &self,
        list_type: AlbumListType,
        size: Option<i32>,
        offset: Option<i32>,
        from_year: Option<i32>,
        to_year: Option<i32>,
        genre: Option<&str>,
        music_folder_id: Option<&str>,
    ) -> (call: Request)
        ensures
            call@ == asks(
                "getAlbumList2"@,
                one("type"@, list_type.name())
                    + opt_int("size"@, size)
                    + opt_int("offset"@, offset)
                    + opt_int("fromYear"@, from_year)
                    + opt_int("toYear"@, to_year)
                    + opt_text("genre"@, genre)
                    + opt_text("musicFolderId"@, music_folder_id),
                ExpectView::ListIn("albumList2"@, "album"@),
            ),
    {
        let mut params = Params::new();
        params.text("type", list_type.as_str());
        params.opt_int("size", size);
        params.opt_int("offset", offset);
        params.opt_int("fromYear", from_year);
        params.opt_int("toYear", to_year);
        params.opt_text("genre", genre);
        params.opt_text("musicFolderId", music_folder_id);
        assert(params@ =~= one("type"@, list_type.name())
            + opt_int("size"@, size)
            + opt_int("offset"@, offset)
            + opt_int("fromYear"@, from_year)
            + opt_int("toYear"@, to_year)
            + opt_text("genre"@, genre)
            + opt_text("musicFolderId"@, music_folder_id));
        Request::get("getAlbumList2", params, Expect::ListIn("albumList2", "album"))
    }

    /// Get random songs: the call of `getRandomSongs`.
    pub fn get_random_songs(
        &self,
        size: Option<i32>,
        genre: Option<&str>,
        from_year: Option<i32>,
        to_year: Option<i32>,
        music_folder_id: Option<&str>,
    ) -> (call: Request)
        ensures
            call@ == asks(
                "getRandomSongs"@,
                opt_int("size"@, size)
                    + opt_text("genre"@, genre)
                    + opt_int("fromYear"@, from_year)
                    + opt_int("toYear"@, to_year)
                    + opt_text("musicFolderId"@, music_folder_id),
                ExpectView::ListIn("randomSongs"@, "song"@),
            ),
    {
        let mut params = Params::new();
        params.opt_int("size", size);
        params.opt_text("genre", genre);
        params.opt_int("fromYear", from_year);
        params.opt_int("toYear", to_year);
        params.opt_text("musicFolderId", music_folder_id);
        assert(params@ =~= opt_int("size"@, size)
            + opt_text("genre"@, genre)
            + opt_int("fromYear"@, from_year)
            + opt_int("toYear"@, to_year)
            + opt_text("musicFolderId"@, music_folder_id));
        Request::get("getRandomSongs", params, Expect::ListIn("randomSongs", "song"))
    }

    /// Get songs by genre: the call of `getSongsByGenre`.
    pub fn get_songs_by_genre(
        &self,
        genre: &str,
        count: Option<i32>,
        offset: Option<i32>,
        music_folder_id: Option<&str>,
    ) -> (call: Request)
        ensures
            call@ == asks(
                "getSongsByGenre"@,
                one("genre"@, genre@)
                    + opt_int("count"@, count)
                    + opt_int("offset"@, offset)
                    + opt_text("musicFolderId"@, music_folder_id),
                ExpectView::ListIn("songsByGenre"@, "song"@),
            ),
    {
        let mut params = Params::new();
        params.text("genre", genre);
        params.opt_int("count", count);
        params.opt_int("offset", offset);
        params.opt_text("musicFolderId", music_folder_id);
        assert(params@ =~= one("genre"@, genre@)
            + opt_int("count"@, count)
            + opt_int("offset"@, offset)
            + opt_text("musicFolderId"@, music_folder_id));
        Request::get("getSongsByGenre", params, Expect::ListIn("songsByGenre", "song"))
    }

    /// Get what is currently being played by all users:
    /// the call of `getNowPlaying`.
    pub fn get_now_playing(&self) -> (call: Request)
        ensures
            call@ == asks(
                "getNowPlaying"@,
                Seq::empty(),
                ExpectView::ListIn("nowPlaying"@, "entry"@),
            ),
    {
        let params = Params::new();
        Request::get("getNowPlaying", params, Expect::ListIn("nowPlaying", "entry"))
    }

    /// Get starred songs, albums and artists (folder-based):
    /// the call of `getStarred`.
    pub fn get_starred(&self, music_folder_id: Option<&str>) -> (call: Request)
        ensures
            call@ == asks(
                "getStarred"@,
                opt_text("musicFolderId"@, music_folder_id),
                ExpectView::Required("starred"@),
            ),
    {
        let mut params = Params::new();
        params.opt_text("musicFolderId", music_folder_id);
        assert(params@ =~= opt_text("musicFolderId"@, music_folder_id));
        Request::get("getStarred", params, Expect::Required("starred"))
    }

    /// Get starred songs, albums and artists (ID3-based):
    /// the call of `getStarred2`.
    pub fn get_starred2(&self, music_folder_id: Option<&str>) -> (call: Request)
        ensures
            call@ == asks(
                "getStarred2"@,
                opt_text("musicFolderId"@, music_folder_id),
                ExpectView::Required("starred2"@),
            ),
    {
        let mut params = Params::new();
        params.opt_text("musicFolderId", music_folder_id);
        assert(params@ =~= opt_text("musicFolderId"@, music_folder_id));
        Request::get("getStarred2", params, Expect::Required("starred2"))
    }
}

} // verus!
