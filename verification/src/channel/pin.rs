//! Work with a channel's pins.

use vstd::prelude::*;

use crate::id::{ChannelId, MessageId};
use crate::route::{Addressed, Route};
use crate::transport;
use twilight_http::client::Client;
use twilight_http::request::channel::{CreatePin, DeletePin, GetPins};

verus! {

/// Work with a channel's pins.
#[derive(Clone, Copy, Debug)]
pub struct ChannelPinResource<'a> {
    client: &'a Client,
    channel_id: ChannelId,
}

impl<'a> ChannelPinResource<'a> {
    /// The transport handle this node was built over.
    pub closed spec fn spec_client(&self) -> &'a Client {
        self.client
    }

    /// The channel identifier bound at this node.
    pub closed spec fn spec_channel_id(&self) -> ChannelId {
        self.channel_id
    }

    /// The identifiers addressing this node.
    pub open spec fn tuple(&self) -> Seq<u64> {
        seq![self.spec_channel_id()@]
    }

    /// Create a resource instance to work with a channel's pins.
    pub fn new(client: &'a Client, channel_id: ChannelId) -> (r: Self)
        ensures
            r.spec_client() == client,
            r.spec_channel_id() == channel_id,
    {
        ChannelPinResource { client, channel_id }
    }

    /// The channel identifier bound at this node.
    pub fn channel_id(&self) -> (r: ChannelId)
        ensures
            r == self.spec_channel_id(),
    {
        self.channel_id
    }

    /// Delete a channel pin.
    pub fn delete(&self, message_id: MessageId) -> (r: Addressed<DeletePin<'a>>)
        ensures
            r.route@ == (Route::ChannelPinDelete {
                channel_id: self.spec_channel_id()@,
                message_id: message_id@,
            }),
    {
        let channel_id: u64 = self.channel_id.value();
        let message_id: u64 = message_id.value();
        Addressed {
            inner: transport::delete_pin(self.client, channel_id, message_id),
            route: Ghost(Route::ChannelPinDelete { channel_id, message_id }),
        }
    }

    /// List a channel's pins.
    pub fn list(&self) -> (r: Addressed<GetPins<'a>>)
        ensures
            r.route@ == (Route::ChannelPinList { channel_id: self.spec_channel_id()@ }),
    {
        let channel_id: u64 = self.channel_id.value();
        Addressed {
            inner: transport::pins(self.client, channel_id),
            route: Ghost(Route::ChannelPinList { channel_id }),
        }
    }

    /// Create a channel pin.
    pub fn post(&self, message_id: MessageId) -> (r: Addressed<CreatePin<'a>>)
        ensures
            r.route@ == (Route::ChannelPinPost {
                channel_id: self.spec_channel_id()@,
                message_id: message_id@,
            }),
    {
        let channel_id: u64 = self.channel_id.value();
        let message_id: u64 = message_id.value();
        Addressed {
            inner: transport::create_pin(self.client, channel_id, message_id),
            route: Ghost(Route::ChannelPinPost { channel_id, message_id }),
        }
    }
}

} // verus!
