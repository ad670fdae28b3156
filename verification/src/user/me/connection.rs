//! Work with the current user's connections.

use vstd::prelude::*;

use crate::route::{Addressed, Route};
use crate::transport;
use twilight_http::client::Client;
use twilight_http::request::user::GetCurrentUserConnections;

verus! {

/// Work with the current user's connections.
#[derive(Clone, Copy, Debug)]
pub struct UserMeConnectionResource<'a> {
    client: &'a Client,
}

impl<'a> UserMeConnectionResource<'a> {
    /// The transport handle this node was built over.
    pub closed spec fn spec_client(&self) -> &'a Client {
        self.client
    }

    /// The identifiers addressing this node.
    pub open spec fn tuple(&self) -> Seq<u64> {
        Seq::empty()
    }

    /// Create a resource instance to work with the current user's connections.
    pub fn new(client: &'a Client) -> (r: Self)
        ensures
            r.spec_client() == client,
    {
        UserMeConnectionResource { client }
    }

    /// List the current user's connections.
    pub fn list(&self) -> (r: Addressed<GetCurrentUserConnections<'a>>)
        ensures
            r.route@ == Route::UserMeConnectionList,
    {
        Addressed {
            inner: transport::current_user_connections(self.client),
            route: Ghost(Route::UserMeConnectionList),
        }
    }
}

} // verus!
