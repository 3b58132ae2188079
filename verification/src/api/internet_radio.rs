//! Internet radio stations.

use vstd::prelude::*;
use crate::api::call::{asks, one, opt_text, Expect, ExpectView, Params, Request};
use crate::client::Client;

verus! {

impl Client {
    /// Get all internet radio stations: the call of `getInternetRadioStations`.
    pub fn get_internet_radio_stations(&self) -> (call: Request)
        ensures
            call@ == asks(
                "getInternetRadioStations"@,
                Seq::empty(),
                ExpectView::ListIn("internetRadioStations"@, "internetRadioStation"@),
            ),
    {
        let params = Params::new();
        Request::get(
            "getInternetRadioStations",
            params,
            Expect::ListIn("internetRadioStations", "internetRadioStation"),
        )
    }

    /// Create a new internet radio station:
    /// the call of `createInternetRadioStation`.
    pub fn create_internet_radio_station(
        &self,
        stream_url: &str,
        name: &str,
        home_page_url: Option<&str>,
    ) -> (call: Request)
        ensures
            call@ == asks(
                "createInternetRadioStation"@,
                one("streamUrl"@, stream_url@)
                    + one("name"@, name@)
                    + opt_text("homepageUrl"@, home_page_url),
                ExpectView::Nothing,
            ),
    {
        let mut params = Params::new();
        params.text("streamUrl", stream_url);
        params.text("name", name);
        params.opt_text("homepageUrl", home_page_url);
        assert(params@ =~= one("streamUrl"@, stream_url@)
            + one("name"@, name@)
            + opt_text("homepageUrl"@, home_page_url));
        Request::get("createInternetRadioStation", params, Expect::Nothing)
    }

    /// Update an existing internet radio station:
    /// the call of `updateInternetRadioStation`.
    pub fn update_internet_radio_station(
        &self,
        id: &str,
        stream_url: &str,
        name: &str,
        home_page_url: Option<&str>,
    ) -> (call: Request)
        ensures
            call@ == asks(
                "updateInternetRadioStation"@,
                one("id"@, id@)
                    + one("streamUrl"@, stream_url@)
                    + one("name"@, name@)
                    + opt_text("homepageUrl"@, home_page_url),
                ExpectView::Nothing,
            ),
    {
        let mut params = Params::new();
        params.text("id", id);
        params.text("streamUrl", stream_url);
        params.text("name", name);
        params.opt_text("homepageUrl", home_page_url);
        assert(params@ =~= one("id"@, id@)
            + one("streamUrl"@, stream_url@)
            + one("name"@, name@)
            + opt_text("homepageUrl"@, home_page_url));
        Request::get("updateInternetRadioStation", params, Expect::Nothing)
    }

    /// Delete an internet radio station:
    /// the call of `deleteInternetRadioStation`.
    pub fn delete_internet_radio_station(&self, id: &str) -> (call: Request)
        ensures
            call@ == asks("deleteInternetRadioStation"@, one("id"@, id@), ExpectView::Nothing),
    {
        let mut params = Params::new();
        params.text("id", id);
        assert(params@ =~= one("id"@, id@));
        Request::get("deleteInternetRadioStation", params, Expect::Nothing)
    }
}

} // verus!
