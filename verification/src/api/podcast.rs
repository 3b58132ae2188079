//! Podcasts.

use vstd::prelude::*;
use crate::api::call::{asks, one, opt_flag, opt_int, opt_text, Expect, ExpectView, Params, Request};
use crate::client::Client;

verus! {

impl Client {
    /// Get all podcast channels: the call of `getPodcasts`.
    pub fn get_podcasts(&self, include_episodes: Option<bool>, id: Option<&str>) -> (call: Request)
        ensures
            call@ == asks(
                "getPodcasts"@,
                opt_flag("includeEpisodes"@, include_episodes) + opt_text("id"@, id),
                ExpectView::ListIn("podcasts"@, "channel"@),
            ),
    {
        let mut params = Params::new();
        params.opt_flag("includeEpisodes", include_episodes);
        params.opt_text("id", id);
        assert(params@ =~= opt_flag("includeEpisodes"@, include_episodes) + opt_text("id"@, id));
        Request::get("getPodcasts", params, Expect::ListIn("podcasts", "channel"))
    }

    /// Get the newest podcast episodes: the call of `getNewestPodcasts`.
    pub fn get_newest_podcasts(&self, count: Option<i32>) -> (call: Request)
        ensures
            call@ == asks(
                "getNewestPodcasts"@,
                opt_int("count"@, count),
                ExpectView::ListIn("newestPodcasts"@, "episode"@),
            ),
    {
        let mut params = Params::new();
        params.opt_int("count", count);
        assert(params@ =~= opt_int("count"@, count));
        Request::get("getNewestPodcasts", params, Expect::ListIn("newestPodcasts", "episode"))
    }

    /// Get a specific podcast episode (OpenSubsonic extension):
    /// the call of `getPodcastEpisode`.
    pub fn get_podcast_episode(&self, id: &str) -> (call: Request)
        ensures
            call@ == asks(
                "getPodcastEpisode"@,
                one("id"@, id@),
                ExpectView::Required("podcastEpisode"@),
            ),
    {
        let mut params = Params::new();
        params.text("id", id);
        assert(params@ =~= one("id"@, id@));
        Request::get("getPodcastEpisode", params, Expect::Required("podcastEpisode"))
    }

    /// Tell the server to check for new podcast episodes:
    /// the call of `refreshPodcasts`.
    pub fn refresh_podcasts(&self) -> (call: Request)
        ensures
            call@ == asks("refreshPodcasts"@, Seq::empty(), ExpectView::Nothing),
    {
        let params = Params::new();
        Request::get("refreshPodcasts", params, Expect::Nothing)
    }

    /// Add a new podcast channel (by feed URL):
    /// the call of `createPodcastChannel`.
    pub fn create_podcast_channel(&self, url: &str) -> (call: Request)
        ensures
            call@ == asks("createPodcastChannel"@, one("url"@, url@), ExpectView::Nothing),
    {
        let mut params = Params::new();
        params.text("url", url);
        assert(params@ =~= one("url"@, url@));
        Request::get("createPodcastChannel", params, Expect::Nothing)
    }

    /// Delete a podcast channel: the call of `deletePodcastChannel`.
    pub fn delete_podcast_channel(&self, id: &str) -> (call: Request)
        ensures
            call@ == asks("deletePodcastChannel"@, one("id"@, id@), ExpectView::Nothing),
    {
        let mut params = Params::new();
        params.text("id", id);
        assert(params@ =~= one("id"@, id@));
        Request::get("deletePodcastChannel", params, Expect::Nothing)
    }

    /// Delete a podcast episode: the call of `deletePodcastEpisode`.
    pub fn delete_podcast_episode(&self, id: &str) -> (call: Request)
        ensures
            call@ == asks("deletePodcastEpisode"@, one("id"@, id@), ExpectView::Nothing),
    {
        let mut params = Params::new();
        params.text("id", id);
        assert(params@ =~= one("id"@, id@));
        Request::get("deletePodcastEpisode", params, Expect::Nothing)
    }

    /// Tell the server to download a podcast episode:
    /// the call of `downloadPodcastEpisode`.
    pub fn download_podcast_episode(&self, id: &str) -> (call: Request)
        ensures
            call@ == asks("downloadPodcastEpisode"@, one("id"@, id@), ExpectView::Nothing),
    {
        let mut params = Params::new();
        params.text("id", id);
        assert(params@ =~= one("id"@, id@));
        Request::get("downloadPodcastEpisode", params, Expect::Nothing)
    }
}

} // verus!
