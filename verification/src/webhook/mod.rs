//! Work with webhooks and their relationships.

mod message;

pub use self::message::WebhookMessageResource;

use vstd::prelude::*;

use crate::id::WebhookId;
use crate::route::{Addressed, Route};
use crate::transport;
use twilight_http::client::Client;
use twilight_http::request::channel::webhook::{
    DeleteWebhook, GetWebhook, UpdateWebhook, UpdateWebhookWithToken,
};

verus! {

/// Work with webhooks.
#[derive(Clone, Copy, Debug)]
pub struct WebhookResource<'a> {
    client: &'a Client,
}

impl<'a> WebhookResource<'a> {
    /// The transport handle this node was built over.
    pub closed spec fn spec_client(&self) -> &'a Client {
        self.client
    }

    /// The identifiers addressing this node.
    pub open spec fn tuple(&self) -> Seq<u64> {
        Seq::empty()
    }

    /// Create a resource instance to work with webhooks.
    pub fn new(client: &'a Client) -> (r: Self)
        ensures
            r.spec_client() == client,
    {
        WebhookResource { client }
    }

    /// Delete a webhook.
    pub fn delete(&self, id: WebhookId) -> (r: Addressed<DeleteWebhook<'a>>)
        ensures
            r.route@ == (Route::WebhookDelete { webhook_id: id@ }),
    {
        let webhook_id: u64 = id.value();
        Addressed {
            inner: transport::delete_webhook(self.client, webhook_id),
            route: Ghost(Route::WebhookDelete { webhook_id }),
        }
    }

    /// Get a webhook.
    pub fn get(&self, id: WebhookId) -> (r: Addressed<GetWebhook<'a>>)
        ensures
            r.route@ == (Route::WebhookGet { webhook_id: id@ }),
    {
        let webhook_id: u64 = id.value();
        Addressed {
            inner: transport::webhook(self.client, webhook_id),
            route: Ghost(Route::WebhookGet { webhook_id }),
        }
    }

    /// Update a webhook.
    pub fn patch(&self, id: WebhookId) -> (r: Addressed<UpdateWebhook<'a>>)
        ensures
            r.route@ == (Route::WebhookPatch { webhook_id: id@ }),
    {
        let webhook_id: u64 = id.value();
        Addressed {
            inner: transport::update_webhook(self.client, webhook_id),
            route: Ghost(Route::WebhookPatch { webhook_id }),
        }
    }
}

/// RPC calls.
impl<'a> WebhookResource<'a> {
    /// Update a webhook with a token.
    pub fn patch_with_token(&self, id: WebhookId, token: &'a str) -> (r: Addressed<UpdateWebhookWithToken<'a>>)
        ensures
            r.route@ == (Route::WebhookPatchWithToken { webhook_id: id@, token: token@ }),
    {
        let webhook_id: u64 = id.value();
        Addressed {
            inner: transport::update_webhook_with_token(self.client, webhook_id, token),
            route: Ghost(Route::WebhookPatchWithToken { webhook_id, token: token@ }),
        }
    }
}

/// 1:M webhook relationships.
impl<'a> WebhookResource<'a> {
    /// Work with a webhook's messages.
    pub fn messages(&self, id: WebhookId, token: &'a str) -> (r: WebhookMessageResource<'a>)
        ensures
            r.spec_client() == self.spec_client(),
            r.spec_webhook_id() == id,
            r.spec_token() == token@,
            r.tuple() == self.tuple().push(id@),
    {
        WebhookMessageResource::new(self.client, id, token)
    }
}

} // verus!
