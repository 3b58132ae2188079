//! Users.

use vstd::prelude::*;
use crate::api::call::{
    asks, each_long, one, opt_flag, opt_int, opt_text, Expect, ExpectView, Params, Request,
};
use crate::client::Client;

verus! {

impl Client {
    /// Get details about a specific user: the call of `getUser`.
    pub fn get_user(&self, username: &str) -> (call: Request)
        ensures
            call@ == asks("getUser"@, one("username"@, username@), ExpectView::Required("user"@)),
    {
        let mut params = Params::new();
        params.text("username", username);
        assert(params@ =~= one("username"@, username@));
        Request::get("getUser", params, Expect::Required("user"))
    }

    /// Get details about all users (admin only): the call of `getUsers`.
    pub fn get_users(&self) -> (call: Request)
        ensures
            call@ == asks("getUsers"@, Seq::empty(), ExpectView::ListIn("users"@, "user"@)),
    {
        let params = Params::new();
        Request::get("getUsers", params, Expect::ListIn("users", "user"))
    }

    /// Create a new user (admin only): the call of `createUser`.
    pub fn create_user(
        &self,
        username: &str,
        password: &str,
        email: &str,
        ldap_authenticated: Option<bool>,
        admin_role: Option<bool>,
        settings_role: Option<bool>,
        stream_role: Option<bool>,
        jukebox_role: Option<bool>,
        download_role: Option<bool>,
        upload_role: Option<bool>,
        playlist_role: Option<bool>,
        cover_art_role: Option<bool>,
        comment_role: Option<bool>,
        podcast_role: Option<bool>,
        share_role: Option<bool>,
        video_conversion_role: Option<bool>,
        music_folder_ids: &[i64],
    ) -> (call: Request)
        ensures
            call@ == asks(
                "createUser"@,
                one("username"@, username@)
                    + one("password"@, password@)
                    + one("email"@, email@)
                    + opt_flag("ldapAuthenticated"@, ldap_authenticated)
                    + opt_flag("adminRole"@, admin_role)
                    + opt_flag("settingsRole"@, settings_role)
                    + opt_flag("streamRole"@, stream_role)
                    + opt_flag("jukeboxRole"@, jukebox_role)
                    + opt_flag("downloadRole"@, download_role)
                    + opt_flag("uploadRole"@, upload_role)
                    + opt_flag("playlistRole"@, playlist_role)
                    + opt_flag("coverArtRole"@, cover_art_role)
                    + opt_flag("commentRole"@, comment_role)
                    + opt_flag("podcastRole"@, podcast_role)
                    + opt_flag("shareRole"@, share_role)
                    + opt_flag("videoConversionRole"@, video_conversion_role)
                    + each_long("musicFolderId"@, music_folder_ids@),
                ExpectView::Nothing,
            ),
    {
        let mut params = Params::new();
        params.text("username", username);
        params.text("password", password);
        params.text("email", email);
        params.opt_flag("ldapAuthenticated", ldap_authenticated);
        params.opt_flag("adminRole", admin_role);
        params.opt_flag("settingsRole", settings_role);
        params.opt_flag("streamRole", stream_role);
        params.opt_flag("jukeboxRole", jukebox_role);
        params.opt_flag("downloadRole", download_role);
        params.opt_flag("uploadRole", upload_role);
        params.opt_flag("playlistRole", playlist_role);
        params.opt_flag("coverArtRole", cover_art_role);
        params.opt_flag("commentRole", comment_role);
        params.opt_flag("podcastRole", podcast_role);
        params.opt_flag("shareRole", share_role);
        params.opt_flag("videoConversionRole", video_conversion_role);
        params.each_long("musicFolderId", music_folder_ids);
        assert(params@ =~= one("username"@, username@)
            + one("password"@, password@)
            + one("email"@, email@)
            + opt_flag("ldapAuthenticated"@, ldap_authenticated)
            + opt_flag("adminRole"@, admin_role)
            + opt_flag("settingsRole"@, settings_role)
            + opt_flag("streamRole"@, stream_role)
            + opt_flag("jukeboxRole"@, jukebox_role)
            + opt_flag("downloadRole"@, download_role)
            + opt_flag("uploadRole"@, upload_role)
            + opt_flag("playlistRole"@, playlist_role)
            + opt_flag("coverArtRole"@, cover_art_role)
            + opt_flag("commentRole"@, comment_role)
            + opt_flag("podcastRole"@, podcast_role)
            + opt_flag("shareRole"@, share_role)
            + opt_flag("videoConversionRole"@, video_conversion_role)
            + each_long("musicFolderId"@, music_folder_ids@));
        Request::get("createUser", params, Expect::Nothing)
    }

    /// Update an existing user (admin only): the call of `updateUser`.
    pub fn update_user(
        &self,
        username: &str,
        password: Option<&str>,
        email: Option<&str>,
        ldap_authenticated: Option<bool>,
        admin_role: Option<bool>,
        settings_role: Option<bool>,
        stream_role: Option<bool>,
        jukebox_role: Option<bool>,
        download_role: Option<bool>,
        upload_role: Option<bool>,
        playlist_role: Option<bool>,
        cover_art_role: Option<bool>,
        comment_role: Option<bool>,
        podcast_role: Option<bool>,
        share_role: Option<bool>,
        video_conversion_role: Option<bool>,
        max_bit_rate: Option<i32>,
        music_folder_ids: &[i64],
    ) -> (call: Request)
        ensures
            call@ == asks(
                "updateUser"@,
                one("username"@, username@)
                    + opt_text("password"@, password)
                    + opt_text("email"@, email)
                    + opt_flag("ldapAuthenticated"@, ldap_authenticated)
                    + opt_flag("adminRole"@, admin_role)
                    + opt_flag("settingsRole"@, settings_role)
                    + opt_flag("streamRole"@, stream_role)
                    + opt_flag("jukeboxRole"@, jukebox_role)
                    + opt_flag("downloadRole"@, download_role)
                    + opt_flag("uploadRole"@, upload_role)
                    + opt_flag("playlistRole"@, playlist_role)
                    + opt_flag("coverArtRole"@, cover_art_role)
                    + opt_flag("commentRole"@, comment_role)
                    + opt_flag("podcastRole"@, podcast_role)
                    + opt_flag("shareRole"@, share_role)
                    + opt_flag("videoConversionRole"@, video_conversion_role)
                    + opt_int("maxBitRate"@, max_bit_rate)
                    + each_long("musicFolderId"@, music_folder_ids@),
                ExpectView::Nothing,
            ),
    {
        let mut params = Params::new();
        params.text("username", username);
        params.opt_text("password", password);
        params.opt_text("email", email);
        params.opt_flag("ldapAuthenticated", ldap_authenticated);
        params.opt_flag("adminRole", admin_role);
        params.opt_flag("settingsRole", settings_role);
        params.opt_flag("streamRole", stream_role);
        params.opt_flag("jukeboxRole", jukebox_role);
        params.opt_flag("downloadRole", download_role);
        params.opt_flag("uploadRole", upload_role);
        params.opt_flag("playlistRole", playlist_role);
        params.opt_flag("coverArtRole", cover_art_role);
        params.opt_flag("commentRole", comment_role);
        params.opt_flag("podcastRole", podcast_role);
        params.opt_flag("shareRole", share_role);
        params.opt_flag("videoConversionRole", video_conversion_role);
        params.opt_int("maxBitRate", max_bit_rate);
        params.each_long("musicFolderId", music_folder_ids);
        assert(params@ =~= one("username"@, username@)
            + opt_text("password"@, password)
            + opt_text("email"@, email)
            + opt_flag("ldapAuthenticated"@, ldap_authenticated)
            + opt_flag("adminRole"@, admin_role)
            + opt_flag("settingsRole"@, settings_role)
            + opt_flag("streamRole"@, stream_role)
            + opt_flag("jukeboxRole"@, jukebox_role)
            + opt_flag("downloadRole"@, download_role)
            + opt_flag("uploadRole"@, upload_role)
            + opt_flag("playlistRole"@, playlist_role)
            + opt_flag("coverArtRole"@, cover_art_role)
            + opt_flag("commentRole"@, comment_role)
            + opt_flag("podcastRole"@, podcast_role)
            + opt_flag("shareRole"@, share_role)
            + opt_flag("videoConversionRole"@, video_conversion_role)
            + opt_int("maxBitRate"@, max_bit_rate)
            + each_long("musicFolderId"@, music_folder_ids@));
        Request::get("updateUser", params, Expect::Nothing)
    }

    /// Delete a user (admin only): the call of `deleteUser`.
    pub fn delete_user(&self, username: &str) -> (call: Request)
        ensures
            call@ == asks("deleteUser"@, one("username"@, username@), ExpectView::Nothing),
    {
        let mut params = Params::new();
        params.text("username", username);
        assert(params@ =~= one("username"@, username@));
        Request::get("deleteUser", params, Expect::Nothing)
    }

    /// Change a user's password: the call of `changePassword`.
    pub fn change_password(&self, username: &str, password: &str) -> (call: Request)
        ensures
            call@ == asks(
                "changePassword"@,
                one("username"@, username@) + one("password"@, password@),
                ExpectView::Nothing,
            ),
    {
        let mut params = Params::new();
        params.text("username", username);
        params.text("password", password);
        assert(params@ =~= one("username"@, username@) + one("password"@, password@));
        Request::get("changePassword", params, Expect::Nothing)
    }
}

} // verus!
