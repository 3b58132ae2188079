//! Streams, downloads, cover art and lyrics.

use vstd::prelude::*;
use url::Url;
use crate::api::call::{asks, one, opt_flag, opt_int, opt_text, Expect, ExpectView, Params, Request};
use crate::auth::is_salt;
use crate::client::Client;
use crate::error::Error;

verus! {

impl Client {
    /// Stream a song or video: the call of `stream`.
    pub fn stream(
        &self,
        id: &str,
        max_bit_rate: Option<i32>,
        format: Option<&str>,
        time_offset: Option<i32>,
        estimated_content_length: Option<bool>,
    ) -> (call: Request)
        ensures
            call@ == asks(
                "stream"@,
                one("id"@, id@)
                    + opt_int("maxBitRate"@, max_bit_rate)
                    + opt_text("format"@, format)
                    + opt_int("timeOffset"@, time_offset)
                    + opt_flag("estimateContentLength"@, estimated_content_length),
                ExpectView::Bytes,
            ),
    {
        let mut params = Params::new();
        params.text("id", id);
        params.opt_int("maxBitRate", max_bit_rate);
        params.opt_text("format", format);
        params.opt_int("timeOffset", time_offset);
        params.opt_flag("estimateContentLength", estimated_content_length);
        assert(params@ =~= one("id"@, id@)
            + opt_int("maxBitRate"@, max_bit_rate)
            + opt_text("format"@, format)
            + opt_int("timeOffset"@, time_offset)
            + opt_flag("estimateContentLength"@, estimated_content_length));
        Request::get("stream", params, Expect::Bytes)
    }

    /// Build a streaming URL for a song without making an HTTP request.
    pub fn stream_url(
        &self,
        id: &str,
        max_bit_rate: Option<i32>,
        format: Option<&str>,
    ) -> (r: Result<Url, Error>)
        ensures
            exists|salt: Seq<char>|
                is_salt(salt) && #[trigger] self@.builds(
                    "stream"@,
                    self@.credentials(salt),
                    one("id"@, id@)
                        + opt_int("maxBitRate"@, max_bit_rate)
                        + opt_text("format"@, format),
                    r,
                ),
    {
        let mut params = Params::new();
        params.text("id", id);
        params.opt_int("maxBitRate", max_bit_rate);
        params.opt_text("format", format);
        assert(params@ =~= one("id"@, id@)
            + opt_int("maxBitRate"@, max_bit_rate)
            + opt_text("format"@, format));
        let pairs = params.as_pairs();
        self.build_url("stream", pairs.as_slice())
    }

    /// Download a song or video: the call of `download`.
    pub fn download(&self, id: &str) -> (call: Request)
        ensures
            call@ == asks("download"@, one("id"@, id@), ExpectView::Bytes),
    {
        let mut params = Params::new();
        params.text("id", id);
        assert(params@ =~= one("id"@, id@));
        Request::get("download", params, Expect::Bytes)
    }

    /// Get an HLS playlist URL for a video or song.
    pub fn hls_url(
        &self,
        id: &str,
        bit_rate: Option<&str>,
        audio_track: Option<&str>,
    ) -> (r: Result<Url, Error>)
        ensures
            exists|salt: Seq<char>|
                is_salt(salt) && #[trigger] self@.builds(
                    "hls.m3u8"@,
                    self@.credentials(salt),
                    one("id"@, id@)
                        + opt_text("bitRate"@, bit_rate)
                        + opt_text("audioTrack"@, audio_track),
                    r,
                ),
    {
        let mut params = Params::new();
        params.text("id", id);
        params.opt_text("bitRate", bit_rate);
        params.opt_text("audioTrack", audio_track);
        assert(params@ =~= one("id"@, id@)
            + opt_text("bitRate"@, bit_rate)
            + opt_text("audioTrack"@, audio_track));
        let pairs = params.as_pairs();
        self.build_url("hls.m3u8", pairs.as_slice())
    }

    /// Get captions (subtitles) for a video: the call of `getCaptions`.
    pub fn get_captions(&self, id: &str, format: Option<&str>) -> (call: Request)
        ensures
            call@ == asks(
                "getCaptions"@,
                one("id"@, id@) + opt_text("format"@, format),
                ExpectView::Bytes,
            ),
    {
        let mut params = Params::new();
        params.text("id", id);
        params.opt_text("format", format);
        assert(params@ =~= one("id"@, id@) + opt_text("format"@, format));
        Request::get("getCaptions", params, Expect::Bytes)
    }

    /// Get cover art for an album or artist: the call of `getCoverArt`.
    pub fn get_cover_art(&self, id: &str, size: Option<i32>) -> (call: Request)
        ensures
            call@ == asks(
                "getCoverArt"@,
                one("id"@, id@) + opt_int("size"@, size),
                ExpectView::Bytes,
            ),
    {
        let mut params = Params::new();
        params.text("id", id);
        params.opt_int("size", size);
        assert(params@ =~= one("id"@, id@) + opt_int("size"@, size));
        Request::get("getCoverArt", params, Expect::Bytes)
    }

    /// Build a cover art URL without making an HTTP request.
    pub fn cover_art_url(&self, id: &str, size: Option<i32>) -> (r: Result<Url, Error>)
        ensures
            exists|salt: Seq<char>|
                is_salt(salt) && #[trigger] self@.builds(
                    "getCoverArt"@,
                    self@.credentials(salt),
                    one("id"@, id@) + opt_int("size"@, size),
                    r,
                ),
    {
        let mut params = Params::new();
        params.text("id", id);
        params.opt_int("size", size);
        assert(params@ =~= one("id"@, id@) + opt_int("size"@, size));
        let pairs = params.as_pairs();
        self.build_url("getCoverArt", pairs.as_slice())
    }

    /// Get lyrics for a song (legacy, unstructured): the call of `getLyrics`.
    pub fn get_lyrics(&self, artist: Option<&str>, title: Option<&str>) -> (call: Request)
        ensures
            call@ == asks(
                "getLyrics"@,
                opt_text("artist"@, artist) + opt_text("title"@, title),
                ExpectView::ObjectOr("lyrics"@),
            ),
    {
        let mut params = Params::new();
        params.opt_text("artist", artist);
        params.opt_text("title", title);
        assert(params@ =~= opt_text("artist"@, artist) + opt_text("title"@, title));
        Request::get("getLyrics", params, Expect::ObjectOr("lyrics"))
    }

    /// Get structured lyrics for a song by ID (OpenSubsonic extension):
    /// the call of `getLyricsBySongId`.
    pub fn get_lyrics_by_song_id(&self, id: &str) -> (call: Request)
        ensures
            call@ == asks(
                "getLyricsBySongId"@,
                one("id"@, id@),
                ExpectView::ObjectOr("lyricsList"@),
            ),
    {
        let mut params = Params::new();
        params.text("id", id);
        assert(params@ =~= one("id"@, id@));
        Request::get("getLyricsBySongId", params, Expect::ObjectOr("lyricsList"))
    }

    /// Get a user's avatar image: the call of `getAvatar`.
    pub fn get_avatar(&self, username: &str) -> (call: Request)
        ensures
            call@ == asks("getAvatar"@, one("username"@, username@), ExpectView::Bytes),
    {
        let mut params = Params::new();
        params.text("username", username);
        assert(params@ =~= one("username"@, username@));
        Request::get("getAvatar", params, Expect::Bytes)
    }
}

} // verus!
