//! Work with gateways.

use vstd::prelude::*;

use crate::route::{Addressed, Route};
use crate::transport;
use twilight_http::client::Client;
use twilight_http::request::GetGateway;

verus! {

/// Work with gateways.
#[derive(Clone, Copy, Debug)]
pub struct GatewayResource<'a> {
    client: &'a Client,
}

impl<'a> GatewayResource<'a> {
    /// The transport handle this node was built over.
    pub closed spec fn spec_client(&self) -> &'a Client {
        self.client
    }

    /// The identifiers addressing this node.
    pub open spec fn tuple(&self) -> Seq<u64> {
        Seq::empty()
    }

    /// Create a resource instance to work with gateways.
    pub fn new(client: &'a Client) -> (r: Self)
        ensures
            r.spec_client() == client,
    {
        GatewayResource { client }
    }

    /// Get a gateway.
    pub fn get(&self) -> (r: Addressed<GetGateway<'a>>)
        ensures
            r.route@ == Route::GatewayGet,
    {
        Addressed {
            inner: transport::gateway(self.client),
            route: Ghost(Route::GatewayGet),
        }
    }
}

} // verus!
