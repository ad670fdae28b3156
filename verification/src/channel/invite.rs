//! Work with a channel's invites.

use vstd::prelude::*;

use crate::id::ChannelId;
use crate::route::{Addressed, Route};
use crate::transport;
use twilight_http::client::Client;
use twilight_http::request::channel::invite::{CreateInvite, GetChannelInvites};

verus! {

/// Work with a channel's invites.
#[derive(Clone, Copy, Debug)]
pub struct ChannelInviteResource<'a> {
    client: &'a Client,
    channel_id: ChannelId,
}

impl<'a> ChannelInviteResource<'a> {
    /// The transport handle this node was built over.
    pub closed spec fn spec_client(&self) -> &'a Client {
        self.client
    }

    /// The channel identifier bound at this node.
    pub closed spec fn spec_channel_id(&self) -> ChannelId {
        self.channel_id
    }

    /// The identifiers addressing this node.
    pub open spec fn tuple(&self) -> Seq<u64> {
        seq![self.spec_channel_id()@]
    }

    /// Create a resource instance to work with a channel's invites.
    pub fn new(client: &'a Client, channel_id: ChannelId) -> (r: Self)
        ensures
            r.spec_client() == client,
            r.spec_channel_id() == channel_id,
    {
        ChannelInviteResource { client, channel_id }
    }

    /// The channel identifier bound at this node.
    pub fn channel_id(&self) -> (r: ChannelId)
        ensures
            r == self.spec_channel_id(),
    {
        self.channel_id
    }

    /// List a channel's invites.
    pub fn list(&self) -> (r: Addressed<GetChannelInvites<'a>>)
        ensures
            r.route@ == (Route::ChannelInviteList { channel_id: self.spec_channel_id()@ }),
    {
        let channel_id: u64 = self.channel_id.value();
        Addressed {
            inner: transport::channel_invites(self.client, channel_id),
            route: Ghost(Route::ChannelInviteList { channel_id }),
        }
    }

    /// Create a channel invite.
    pub fn post(&self) -> (r: Addressed<CreateInvite<'a>>)
        ensures
            r.route@ == (Route::ChannelInvitePost { channel_id: self.spec_channel_id()@ }),
    {
        let channel_id: u64 = self.channel_id.value();
        Addressed {
            inner: transport::create_invite(self.client, channel_id),
            route: Ghost(Route::ChannelInvitePost { channel_id }),
        }
    }
}

} // verus!
