//! Work with a guild's integrations.

use vstd::prelude::*;

use crate::id::{GuildId, IntegrationId};
use crate::route::{Addressed, Route};
use crate::transport;
use twilight_http::client::Client;
use twilight_http::request::guild::integration::{
    DeleteGuildIntegration, GetGuildIntegrations,
};

verus! {

/// Work with a guild's integrations.
#[derive(Clone, Copy, Debug)]
pub struct GuildIntegrationResource<'a> {
    client: &'a Client,
    guild_id: GuildId,
}

impl<'a> GuildIntegrationResource<'a> {
    /// The transport handle this node was built over.
    pub closed spec fn spec_client(&self) -> &'a Client {
        self.client
    }

    /// The guild identifier bound at this node.
    pub closed spec fn spec_guild_id(&self) -> GuildId {
        self.guild_id
    }

    /// The identifiers addressing this node.
    pub open spec fn tuple(&self) -> Seq<u64> {
        seq![self.spec_guild_id()@]
    }

    /// Create a resource instance to work with a guild's integrations.
    pub fn new(client: &'a Client, guild_id: GuildId) -> (r: Self)
        ensures
            r.spec_client() == client,
            r.spec_guild_id() == guild_id,
    {
        GuildIntegrationResource { client, guild_id }
    }

    /// The guild identifier bound at this node.
    pub fn guild_id(&self) -> (r: GuildId)
        ensures
            r == self.spec_guild_id(),
    {
        self.guild_id
    }

    /// Delete a guild's integration.
    pub fn delete(&self, integration_id: IntegrationId) -> (r: Addressed<DeleteGuildIntegration<'a>>)
        ensures
            r.route@ == (Route::GuildIntegrationDelete {
                guild_id: self.spec_guild_id()@,
                integration_id: integration_id@,
            }),
    {
        let guild_id: u64 = self.guild_id.value();
        let integration_id: u64 = integration_id.value();
        Addressed {
            inner: transport::delete_guild_integration(self.client, guild_id, integration_id),
            route: Ghost(Route::GuildIntegrationDelete { guild_id, integration_id }),
        }
    }

    /// List a guild's integrations.
    pub fn list(&self) -> (r: Addressed<GetGuildIntegrations<'a>>)
        ensures
            r.route@ == (Route::GuildIntegrationList { guild_id: self.spec_guild_id()@ }),
    {
        let guild_id: u64 = self.guild_id.value();
        Addressed {
            inner: transport::guild_integrations(self.client, guild_id),
            route: Ghost(Route::GuildIntegrationList { guild_id }),
        }
    }
}

} // verus!
