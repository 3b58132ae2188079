//! Scanning of the media library.

use vstd::prelude::*;
use crate::api::call::{asks, Expect, ExpectView, Params, Request};
use crate::client::Client;

verus! {

impl Client {
    /// Get the current scan status: the call of `getScanStatus`.
    pub fn get_scan_status(&self) -> (call: Request)
        ensures
            call@ == asks("getScanStatus"@, Seq::empty(), ExpectView::Required("scanStatus"@)),
    {
        let params = Params::new();
        Request::get("getScanStatus", params, Expect::Required("scanStatus"))
    }

    /// Start a media library scan: the call of `startScan`.
    pub fn start_scan(&self) -> (call: Request)
        ensures
            call@ == asks("startScan"@, Seq::empty(), ExpectView::Required("scanStatus"@)),
    {
        let params = Params::new();
        Request::get("startScan", params, Expect::Required("scanStatus"))
    }
}

} // verus!
