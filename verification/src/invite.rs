//! Work with invites.

use vstd::prelude::*;

use crate::route::{Addressed, Route};
use crate::transport;
use twilight_http::client::Client;
use twilight_http::request::channel::invite::GetInvite;

verus! {

/// Work with invites.
#[derive(Clone, Copy, Debug)]
pub struct InviteResource<'a> {
    client: &'a Client,
}

impl<'a> InviteResource<'a> {
    /// The transport handle this node was built over.
    pub closed spec fn spec_client(&self) -> &'a Client {
        self.client
    }

    /// The identifiers addressing this node.
    pub open spec fn tuple(&self) -> Seq<u64> {
        Seq::empty()
    }

    /// Create a resource instance to work with invites.
    pub fn new(client: &'a Client) -> (r: Self)
        ensures
            r.spec_client() == client,
    {
        InviteResource { client }
    }

    /// Get an invite.
    pub fn get(&self, code: &'a str) -> (r: Addressed<GetInvite<'a>>)
        ensures
            r.route@ == (Route::InviteGet { code: code@ }),
    {
        Addressed {
            inner: transport::invite(self.client, code),
            route: Ghost(Route::InviteGet { code: code@ }),
        }
    }
}

} // verus!
