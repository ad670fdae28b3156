//! Work with a channel's webhooks.

use vstd::prelude::*;

use crate::id::ChannelId;
use crate::route::{Addressed, Route};
use crate::transport;
use crate::validation::{valid_webhook_name, ValidationFault};
use twilight_http::client::Client;
use twilight_http::request::channel::webhook::{CreateWebhook, GetChannelWebhooks};

verus! {

/// Work with a channel's webhooks.
#[derive(Clone, Copy, Debug)]
pub struct ChannelWebhookResource<'a> {
    client: &'a Client,
    channel_id: ChannelId,
}

impl<'a> ChannelWebhookResource<'a> {
    /// The transport handle this node was built over.
    pub closed spec fn spec_client(&self) -> &'a Client {
        self.client
    }

    /// The channel identifier bound at this node.
    pub closed spec fn spec_channel_id(&self) -> ChannelId {
        self.channel_id
    }

    /// The identifiers addressing this node.
    pub open spec fn tuple(&self) -> Seq<u64> {
        seq![self.spec_channel_id()@]
    }

    /// Create a resource instance to work with a channel's webhooks.
    pub fn new(client: &'a Client, channel_id: ChannelId) -> (r: Self)
        ensures
            r.spec_client() == client,
            r.spec_channel_id() == channel_id,
    {
        ChannelWebhookResource { client, channel_id }
    }

    /// The channel identifier bound at this node.
    pub fn channel_id(&self) -> (r: ChannelId)
        ensures
            r == self.spec_channel_id(),
    {
        self.channel_id
    }

    /// List a channel's webhooks.
    pub fn list(&self) -> (r: Addressed<GetChannelWebhooks<'a>>)
        ensures
            r.route@ == (Route::ChannelWebhookList {
                channel_id: self.spec_channel_id()@,
            }),
    {
        let channel_id: u64 = self.channel_id.value();
        Addressed {
            inner: transport::channel_webhooks(self.client, channel_id),
            route: Ghost(Route::ChannelWebhookList { channel_id }),
        }
    }

    /// Create a channel webhook.
    ///
    /// # Errors
    ///
    /// Returns [`ValidationFault::WebhookName`] if the name is not a valid webhook name.
    pub fn post(&self, name: &'a str) -> (r: Result<Addressed<CreateWebhook<'a>>, ValidationFault>)
        ensures
            r is Ok <==> valid_webhook_name(name@),
            r matches Ok(a) ==> a.route@ == (Route::ChannelWebhookPost {
                channel_id: self.spec_channel_id()@,
                name: name@,
            }),
            r matches Err(e) ==> e == ValidationFault::WebhookName,
    {
        let channel_id: u64 = self.channel_id.value();
        match transport::create_webhook(self.client, channel_id, name) {
            Ok(builder) => Ok(
                Addressed {
                    inner: builder,
                    route: Ghost(Route::ChannelWebhookPost { channel_id, name: name@ }),
                },
            ),
            Err(_) => Err(ValidationFault::WebhookName),
        }
    }
}

} // verus!
