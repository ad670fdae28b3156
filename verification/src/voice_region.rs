//! Work with voice regions.

use vstd::prelude::*;

use crate::route::{Addressed, Route};
use crate::transport;
use twilight_http::client::Client;
use twilight_http::request::GetVoiceRegions;

verus! {

/// Work with voice regions.
#[derive(Clone, Copy, Debug)]
pub struct VoiceRegionResource<'a> {
    client: &'a Client,
}

impl<'a> VoiceRegionResource<'a> {
    /// The transport handle this node was built over.
    pub closed spec fn spec_client(&self) -> &'a Client {
        self.client
    }

    /// The identifiers addressing this node.
    pub open spec fn tuple(&self) -> Seq<u64> {
        Seq::empty()
    }

    /// Create a resource instance to work with voice regions.
    pub fn new(client: &'a Client) -> (r: Self)
        ensures
            r.spec_client() == client,
    {
        VoiceRegionResource { client }
    }

    /// List the voice regions.
    pub fn list(&self) -> (r: Addressed<GetVoiceRegions<'a>>)
        ensures
            r.route@ == Route::VoiceRegionList,
    {
        Addressed {
            inner: transport::voice_regions(self.client),
            route: Ghost(Route::VoiceRegionList),
        }
    }
}

} // verus!
