//! Ping, license and extensions.

use vstd::prelude::*;
use crate::api::call::{asks, Expect, ExpectView, Params, Request};
use crate::client::Client;

verus! {

impl Client {
    /// Test connectivity with the server: the call of `ping`.
    pub fn ping(&self) -> (call: Request)
        ensures
            call@ == asks("ping"@, Seq::empty(), ExpectView::Nothing),
    {
        let params = Params::new();
        Request::get("ping", params, Expect::Nothing)
    }

    /// Get details about the software license: the call of `getLicense`.
    pub fn get_license(&self) -> (call: Request)
        ensures
            call@ == asks("getLicense"@, Seq::empty(), ExpectView::Required("license"@)),
    {
        let params = Params::new();
        Request::get("getLicense", params, Expect::Required("license"))
    }

    /// Get the list of OpenSubsonic API extensions supported by the server:
    /// the call of `getOpenSubsonicExtensions`.
    pub fn get_open_subsonic_extensions(&self) -> (call: Request)
        ensures
            call@ == asks(
                "getOpenSubsonicExtensions"@,
                Seq::empty(),
                ExpectView::ListOr("openSubsonicExtensions"@),
            ),
    {
        let params = Params::new();
        Request::get("getOpenSubsonicExtensions", params, Expect::ListOr("openSubsonicExtensions"))
    }

    /// Get information about the API token (OpenSubsonic extension):
    /// the call of `tokenInfo`.
    pub fn token_info(&self) -> (call: Request)
        ensures
            call@ == asks("tokenInfo"@, Seq::empty(), ExpectView::Required("tokenInfo"@)),
    {
        let params = Params::new();
        Request::get("tokenInfo", params, Expect::Required("tokenInfo"))
    }
}

} // verus!
