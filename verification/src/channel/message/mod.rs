//! Work with channel messages and their relationships.

mod reaction;

pub use reaction::ChannelMessageReactionResource;

use vstd::prelude::*;

use crate::id::{ChannelId, MessageId};
use crate::route::{Addressed, Route};
use crate::transport;
use twilight_http::client::Client;
use twilight_http::request::channel::message::{
    CreateMessage, CrosspostMessage, DeleteMessage, DeleteMessages, GetChannelMessages,
    GetMessage, UpdateMessage,
};
use twilight_model::id::marker::MessageMarker;
use twilight_model::id::Id;

verus! {

/// Work with a channel's messages.
#[derive(Clone, Copy, Debug)]
pub struct ChannelMessageResource<'a> {
    client: &'a Client,
    channel_id: ChannelId,
}

impl<'a> ChannelMessageResource<'a> {
    /// The transport handle this node was built over.
    pub closed spec fn spec_client(&self) -> &'a Client {
        self.client
    }

    /// The channel identifier bound at this node.
    pub closed spec fn spec_channel_id(&self) -> ChannelId {
        self.channel_id
    }

    /// The identifiers addressing this node.
    pub open spec fn tuple(&self) -> Seq<u64> {
        seq![self.spec_channel_id()@]
    }

    /// Create a resource instance to work with a channel's messages.
    pub fn new(client: &'a Client, channel_id: ChannelId) -> (r: Self)
        ensures
            r.spec_client() == client,
            r.spec_channel_id() == channel_id,
    {
        ChannelMessageResource { client, channel_id }
    }

    /// The channel identifier bound at this node.
    pub fn channel_id(&self) -> (r: ChannelId)
        ensures
            r == self.spec_channel_id(),
    {
        self.channel_id
    }

    /// Delete multiple channel messages.
    pub fn delete_list(&self, message_ids: &'a [Id<MessageMarker>]) -> (r: Addressed<DeleteMessages<'a>>)
        ensures
            r.route@ == (Route::ChannelMessageDeleteList {
                channel_id: self.spec_channel_id()@,
                message_ids: message_ids@,
            }),
    {
        let channel_id: u64 = self.channel_id.value();
        Addressed {
            inner: transport::delete_messages(self.client, channel_id, message_ids),
            route: Ghost(Route::ChannelMessageDeleteList {
                channel_id,
                message_ids: message_ids@,
            }),
        }
    }

    /// Delete a channel message.
    pub fn delete(&self, message_id: MessageId) -> (r: Addressed<DeleteMessage<'a>>)
        ensures
            r.route@ == (Route::ChannelMessageDelete {
                channel_id: self.spec_channel_id()@,
                message_id: message_id@,
            }),
    {
        let channel_id: u64 = self.channel_id.value();
        let message_id: u64 = message_id.value();
        Addressed {
            inner: transport::delete_message(self.client, channel_id, message_id),
            route: Ghost(Route::ChannelMessageDelete { channel_id, message_id }),
        }
    }

    /// Get a channel message.
    pub fn get(&self, message_id: MessageId) -> (r: Addressed<GetMessage<'a>>)
        ensures
            r.route@ == (Route::ChannelMessageGet {
                channel_id: self.spec_channel_id()@,
                message_id: message_id@,
            }),
    {
        let channel_id: u64 = self.channel_id.value();
        let message_id: u64 = message_id.value();
        Addressed {
            inner: transport::message(self.client, channel_id, message_id),
            route: Ghost(Route::ChannelMessageGet { channel_id, message_id }),
        }
    }

    /// List a channel's messages.
    pub fn list(&self) -> (r: Addressed<GetChannelMessages<'a>>)
        ensures
            r.route@ == (Route::ChannelMessageList {
                channel_id: self.spec_channel_id()@,
            }),
    {
        let channel_id: u64 = self.channel_id.value();
        Addressed {
            inner: transport::channel_messages(self.client, channel_id),
            route: Ghost(Route::ChannelMessageList { channel_id }),
        }
    }

    /// Update a channel message.
    pub fn patch(&self, message_id: MessageId) -> (r: Addressed<UpdateMessage<'a>>)
        ensures
            r.route@ == (Route::ChannelMessagePatch {
                channel_id: self.spec_channel_id()@,
                message_id: message_id@,
            }),
    {
        let channel_id: u64 = self.channel_id.value();
        let message_id: u64 = message_id.value();
        Addressed {
            inner: transport::update_message(self.client, channel_id, message_id),
            route: Ghost(Route::ChannelMessagePatch { channel_id, message_id }),
        }
    }

    /// Create a channel message.
    pub fn post(&self) -> (r: Addressed<CreateMessage<'a>>)
        ensures
            r.route@ == (Route::ChannelMessagePost {
                channel_id: self.spec_channel_id()@,
            }),
    {
        let channel_id: u64 = self.channel_id.value();
        Addressed {
            inner: transport::create_message(self.client, channel_id),
            route: Ghost(Route::ChannelMessagePost { channel_id }),
        }
    }
}

/// RPC calls.
impl<'a> ChannelMessageResource<'a> {
    /// Crosspost a channel message.
    pub fn crosspost(&self, message_id: MessageId) -> (r: Addressed<CrosspostMessage<'a>>)
        ensures
            r.route@ == (Route::ChannelMessageCrosspost {
                channel_id: self.spec_channel_id()@,
                message_id: message_id@,
            }),
    {
        let channel_id: u64 = self.channel_id.value();
        let message_id: u64 = message_id.value();
        Addressed {
            inner: transport::crosspost_message(self.client, channel_id, message_id),
            route: Ghost(Route::ChannelMessageCrosspost { channel_id, message_id }),
        }
    }
}

/// 1:M channel message relationships.
impl<'a> ChannelMessageResource<'a> {
    /// Work with a channel message's reactions.
    pub fn reactions(&self, message_id: MessageId) -> (r: ChannelMessageReactionResource<'a>)
        ensures
            r.spec_client() == self.spec_client(),
            r.spec_channel_id() == self.spec_channel_id(),
            r.spec_message_id() == message_id,
            r.tuple() == self.tuple().push(message_id@),
    {
        ChannelMessageReactionResource::new(self.client, self.channel_id, message_id)
    }
}

} // verus!
