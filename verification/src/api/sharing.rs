//! Shares.

use vstd::prelude::*;
use crate::api::call::{
    asks, each_text, one, opt_long, opt_text, Expect, ExpectView, Params, Request,
};
use crate::client::Client;

verus! {

impl Client {
    /// Get all shares: the call of `getShares`.
    pub fn get_shares(&self) -> (call: Request)
        ensures
            call@ == asks("getShares"@, Seq::empty(), ExpectView::ListIn("shares"@, "share"@)),
    {
        let params = Params::new();
        Request::get("getShares", params, Expect::ListIn("shares", "share"))
    }

    /// Create a new share: the call of `createShare`.
    pub fn create_share(
        &self,
        ids: &[&str],
        description: Option<&str>,
        expires: Option<i64>,
    ) -> (call: Request)
        ensures
            call@ == asks(
                "createShare"@,
                each_text("id"@, ids@)
                    + opt_text("description"@, description)
                    + opt_long("expires"@, expires),
                ExpectView::ListIn("shares"@, "share"@),
            ),
    {
        let mut params = Params::new();
        params.each_text("id", ids);
        params.opt_text("description", description);
        params.opt_long("expires", expires);
        assert(params@ =~= each_text("id"@, ids@)
            + opt_text("description"@, description)
            + opt_long("expires"@, expires));
        Request::get("createShare", params, Expect::ListIn("shares", "share"))
    }

    /// Update an existing share: the call of `updateShare`.
    pub fn update_share(
        &self,
        id: &str,
        description: Option<&str>,
        expires: Option<i64>,
    ) -> (call: Request)
        ensures
            call@ == asks(
                "updateShare"@,
                one("id"@, id@)
                    + opt_text("description"@, description)
                    + opt_long("expires"@, expires),
                ExpectView::Nothing,
            ),
    {
        let mut params = Params::new();
        params.text("id", id);
        params.opt_text("description", description);
        params.opt_long("expires", expires);
        assert(params@ =~= one("id"@, id@)
            + opt_text("description"@, description)
            + opt_long("expires"@, expires));
        Request::get("updateShare", params, Expect::Nothing)
    }

    /// Delete an existing share: the call of `deleteShare`.
    pub fn delete_share(&self, id: &str) -> (call: Request)
        ensures
            call@ == asks("deleteShare"@, one("id"@, id@), ExpectView::Nothing),
    {
        let mut params = Params::new();
        params.text("id", id);
        assert(params@ =~= one("id"@, id@));
        Request::get("deleteShare", params, Expect::Nothing)
    }
}

} // verus!
