//! Work with a channel message's reactions.

use vstd::prelude::*;

use crate::id::{ChannelId, MessageId};
use crate::route::{Addressed, Route};
use crate::transport;
use twilight_http::client::Client;
use twilight_http::request::channel::reaction::{
    DeleteAllReactions, GetReactions, RequestReactionType,
};

verus! {

/// Work with a channel message's reactions.
#[derive(Clone, Copy, Debug)]
pub struct ChannelMessageReactionResource<'a> {
    client: &'a Client,
    channel_id: ChannelId,
    message_id: MessageId,
}

impl<'a> ChannelMessageReactionResource<'a> {
    /// The transport handle this node was built over.
    pub closed spec fn spec_client(&self) -> &'a Client {
        self.client
    }

    /// The channel identifier bound at this node.
    pub closed spec fn spec_channel_id(&self) -> ChannelId {
        self.channel_id
    }

    /// The message identifier bound at this node.
    pub closed spec fn spec_message_id(&self) -> MessageId {
        self.message_id
    }

    /// The identifiers addressing this node.
    pub open spec fn tuple(&self) -> Seq<u64> {
        seq![self.spec_channel_id()@, self.spec_message_id()@]
    }

    /// Create a resource instance to work with a channel message's reactions.
    pub fn new(client: &'a Client, channel_id: ChannelId, message_id: MessageId) -> (r: Self)
        ensures
            r.spec_client() == client,
            r.spec_channel_id() == channel_id,
            r.spec_message_id() == message_id,
    {
        ChannelMessageReactionResource { client, channel_id, message_id }
    }

    /// The channel identifier bound at this node.
    pub fn channel_id(&self) -> (r: ChannelId)
        ensures
            r == self.spec_channel_id(),
    {
        self.channel_id
    }

    /// The message identifier bound at this node.
    pub fn message_id(&self) -> (r: MessageId)
        ensures
            r == self.spec_message_id(),
    {
        self.message_id
    }

    /// Delete all reactions on a channel message.
    pub fn delete_list(&self) -> (r: Addressed<DeleteAllReactions<'a>>)
        ensures
            r.route@ == (Route::ChannelMessageReactionDeleteList {
                channel_id: self.spec_channel_id()@,
                message_id: self.spec_message_id()@,
            }),
    {
        let channel_id: u64 = self.channel_id.value();
        let message_id: u64 = self.message_id.value();
        Addressed {
            inner: transport::delete_all_reactions(self.client, channel_id, message_id),
            route: Ghost(Route::ChannelMessageReactionDeleteList {
                channel_id,
                message_id,
            }),
        }
    }

    /// List a channel message's reactions to one emoji.
    pub fn list(&self, emoji: &'a RequestReactionType<'a>) -> (r: Addressed<GetReactions<'a>>)
        ensures
            r.route@ == (Route::ChannelMessageReactionList {
                channel_id: self.spec_channel_id()@,
                message_id: self.spec_message_id()@,
            }),
    {
        let channel_id: u64 = self.channel_id.value();
        let message_id: u64 = self.message_id.value();
        Addressed {
            inner: transport::reactions(self.client, channel_id, message_id, emoji),
            route: Ghost(Route::ChannelMessageReactionList { channel_id, message_id }),
        }
    }
}

} // verus!
