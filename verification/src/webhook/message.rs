//! Work with a webhook's messages.

use vstd::prelude::*;

use crate::id::{MessageId, WebhookId};
use crate::route::{Addressed, Route};
use crate::transport;
use twilight_http::client::Client;
use twilight_http::request::channel::webhook::{
    DeleteWebhookMessage, ExecuteWebhook, UpdateWebhookMessage,
};

verus! {

/// Work with a webhook's messages.
#[derive(Clone, Copy, Debug)]
pub struct WebhookMessageResource<'a> {
    client: &'a Client,
    webhook_id: WebhookId,
    token: &'a str,
}

impl<'a> WebhookMessageResource<'a> {
    /// The transport handle this node was built over.
    pub closed spec fn spec_client(&self) -> &'a Client {
        self.client
    }

    /// The webhook identifier bound at this node.
    pub closed spec fn spec_webhook_id(&self) -> WebhookId {
        self.webhook_id
    }

    /// The webhook token this node carries.
    pub closed spec fn spec_token(&self) -> Seq<char> {
        self.token@
    }

    /// The identifiers addressing this node.
    pub open spec fn tuple(&self) -> Seq<u64> {
        seq![self.spec_webhook_id()@]
    }

    /// Create a resource instance to work with a webhook's messages.
    pub fn new(client: &'a Client, webhook_id: WebhookId, token: &'a str) -> (r: Self)
        ensures
            r.spec_client() == client,
            r.spec_webhook_id() == webhook_id,
            r.spec_token() == token@,
    {
        WebhookMessageResource { client, webhook_id, token }
    }

    /// The webhook identifier bound at this node.
    pub fn webhook_id(&self) -> (r: WebhookId)
        ensures
            r == self.spec_webhook_id(),
    {
        self.webhook_id
    }

    /// The webhook token this node carries.
    pub fn token(&self) -> (r: &'a str)
        ensures
            r@ == self.spec_token(),
    {
        self.token
    }

    /// Delete a webhook message.
    pub fn delete(self, message_id: MessageId) -> (r: Addressed<DeleteWebhookMessage<'a>>)
        ensures
            r.route@ == (Route::WebhookMessageDelete {
                webhook_id: self.spec_webhook_id()@,
                token: self.spec_token(),
                message_id: message_id@,
            }),
    {
        let webhook_id: u64 = self.webhook_id.value();
        let message_id: u64 = message_id.value();
        Addressed {
            inner: transport::delete_webhook_message(self.client, webhook_id, self.token, message_id),
            route: Ghost(Route::WebhookMessageDelete {
                webhook_id,
                token: self.token@,
                message_id,
            }),
        }
    }

    /// Update a webhook message.
    pub fn patch(self, message_id: MessageId) -> (r: Addressed<UpdateWebhookMessage<'a>>)
        ensures
            r.route@ == (Route::WebhookMessagePatch {
                webhook_id: self.spec_webhook_id()@,
                token: self.spec_token(),
                message_id: message_id@,
            }),
    {
        let webhook_id: u64 = self.webhook_id.value();
        let message_id: u64 = message_id.value();
        Addressed {
            inner: transport::update_webhook_message(self.client, webhook_id, self.token, message_id),
            route: Ghost(Route::WebhookMessagePatch {
                webhook_id,
                token: self.token@,
                message_id,
            }),
        }
    }

    /// Create a webhook message.
    pub fn post(self) -> (r: Addressed<ExecuteWebhook<'a>>)
        ensures
            r.route@ == (Route::WebhookMessagePost {
                webhook_id: self.spec_webhook_id()@,
                token: self.spec_token(),
            }),
    {
        let webhook_id: u64 = self.webhook_id.value();
        Addressed {
            inner: transport::execute_webhook(self.client, webhook_id, self.token),
            route: Ghost(Route::WebhookMessagePost { webhook_id, token: self.token@ }),
        }
    }
}

} // verus!
