//! Work with channels and their relationships.

pub mod message;

mod invite;
mod permission_overwrite;
mod pin;
mod webhook;

pub use self::{
    invite::ChannelInviteResource, message::ChannelMessageResource,
    permission_overwrite::ChannelPermissionOverwriteResource, pin::ChannelPinResource,
    webhook::ChannelWebhookResource,
};

use vstd::prelude::*;

use crate::id::ChannelId;
use crate::route::{Addressed, Route};
use crate::transport;
use twilight_http::client::Client;
use twilight_http::request::channel::{
    CreateTypingTrigger, DeleteChannel, FollowNewsChannel, GetChannel, UpdateChannel,
};

verus! {

/// Work with channels.
#[derive(Clone, Copy, Debug)]
pub struct ChannelResource<'a> {
    client: &'a Client,
}

impl<'a> ChannelResource<'a> {
    /// The transport handle this node was built over.
    pub closed spec fn spec_client(&self) -> &'a Client {
        self.client
    }

    /// The identifiers addressing this node.
    pub open spec fn tuple(&self) -> Seq<u64> {
        Seq::empty()
    }

    /// Create a resource instance to work with channels.
    pub fn new(client: &'a Client) -> (r: Self)
        ensures
            r.spec_client() == client,
    {
        ChannelResource { client }
    }

    /// Delete a channel.
    pub fn delete(&self, id: ChannelId) -> (r: Addressed<DeleteChannel<'a>>)
        ensures
            r.route@ == (Route::ChannelDelete { channel_id: id@ }),
    {
        let channel_id: u64 = id.value();
        Addressed {
            inner: transport::delete_channel(self.client, channel_id),
            route: Ghost(Route::ChannelDelete { channel_id }),
        }
    }

    /// Get a channel.
    pub fn get(&self, id: ChannelId) -> (r: Addressed<GetChannel<'a>>)
        ensures
            r.route@ == (Route::ChannelGet { channel_id: id@ }),
    {
        let channel_id: u64 = id.value();
        Addressed {
            inner: transport::channel(self.client, channel_id),
            route: Ghost(Route::ChannelGet { channel_id }),
        }
    }

    /// Update a channel.
    pub fn patch(&self, id: ChannelId) -> (r: Addressed<UpdateChannel<'a>>)
        ensures
            r.route@ == (Route::ChannelPatch { channel_id: id@ }),
    {
        let channel_id: u64 = id.value();
        Addressed {
            inner: transport::update_channel(self.client, channel_id),
            route: Ghost(Route::ChannelPatch { channel_id }),
        }
    }
}

/// RPC calls.
impl<'a> ChannelResource<'a> {
    /// Follow a news channel.
    pub fn follow(&self, id: ChannelId, webhook_channel_id: ChannelId) -> (r: Addressed<FollowNewsChannel<'a>>)
        ensures
            r.route@ == (Route::ChannelFollow {
                channel_id: id@,
                webhook_channel_id: webhook_channel_id@,
            }),
    {
        let channel_id: u64 = id.value();
        let webhook_channel_id: u64 = webhook_channel_id.value();
        Addressed {
            inner: transport::follow_news_channel(self.client, channel_id, webhook_channel_id),
            route: Ghost(Route::ChannelFollow { channel_id, webhook_channel_id }),
        }
    }

    /// Trigger a typing indicator in a channel.
    pub fn typing(&self, id: ChannelId) -> (r: Addressed<CreateTypingTrigger<'a>>)
        ensures
            r.route@ == (Route::ChannelTyping { channel_id: id@ }),
    {
        let channel_id: u64 = id.value();
        Addressed {
            inner: transport::create_typing_trigger(self.client, channel_id),
            route: Ghost(Route::ChannelTyping { channel_id }),
        }
    }
}

/// 1:M channel relationships.
impl<'a> ChannelResource<'a> {
    /// Work with a channel's invites.
    pub fn invites(&self, channel_id: ChannelId) -> (r: ChannelInviteResource<'a>)
        ensures
            r.spec_client() == self.spec_client(),
            r.spec_channel_id() == channel_id,
            r.tuple() == self.tuple().push(channel_id@),
    {
        ChannelInviteResource::new(self.client, channel_id)
    }

    /// Work with a channel's messages.
    pub fn messages(&self, channel_id: ChannelId) -> (r: ChannelMessageResource<'a>)
        ensures
            r.spec_client() == self.spec_client(),
            r.spec_channel_id() == channel_id,
            r.tuple() == self.tuple().push(channel_id@),
    {
        ChannelMessageResource::new(self.client, channel_id)
    }

    /// Work with a channel's permission overwrites.
    pub fn permission_overwrites(&self, channel_id: ChannelId) -> (r: ChannelPermissionOverwriteResource<'a>)
        ensures
            r.spec_client() == self.spec_client(),
            r.spec_channel_id() == channel_id,
            r.tuple() == self.tuple().push(channel_id@),
    {
        ChannelPermissionOverwriteResource::new(self.client, channel_id)
    }

    /// Work with a channel's pins.
    pub fn pins(&self, channel_id: ChannelId) -> (r: ChannelPinResource<'a>)
        ensures
            r.spec_client() == self.spec_client(),
            r.spec_channel_id() == channel_id,
            r.tuple() == self.tuple().push(channel_id@),
    {
        ChannelPinResource::new(self.client, channel_id)
    }

    /// Work with a channel's webhooks.
    pub fn webhooks(&self, channel_id: ChannelId) -> (r: ChannelWebhookResource<'a>)
        ensures
            r.spec_client() == self.spec_client(),
            r.spec_channel_id() == channel_id,
            r.tuple() == self.tuple().push(channel_id@),
    {
        ChannelWebhookResource::new(self.client, channel_id)
    }
}

} // verus!
