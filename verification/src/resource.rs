//! Entry point of the resource tree.

use vstd::prelude::*;

use crate::channel::ChannelResource;
use crate::gateway::GatewayResource;
use crate::guild::GuildBanResource;
use crate::guild::GuildResource;
use crate::invite::InviteResource;
use crate::template::TemplateResource;
use crate::user::UserResource;
use crate::voice_region::VoiceRegionResource;
use crate::webhook::WebhookResource;
use twilight_http::client::Client;

verus! {

/// Create a resource tree based on an HTTP client.
pub trait Resource {
    /// The transport handle the resource tree is built over.
    spec fn transport(&self) -> &Client;

    /// Work with channels.
    fn channels(&self) -> (r: ChannelResource<'_>)
        ensures
            r.spec_client() == self.transport(),
    ;

    /// Work with gateways.
    fn gateways(&self) -> (r: GatewayResource<'_>)
        ensures
            r.spec_client() == self.transport(),
    ;

    /// Work with guilds.
    fn guilds(&self) -> (r: GuildResource<'_>)
        ensures
            r.spec_client() == self.transport(),
    ;

    /// Work with invites.
    fn invites(&self) -> (r: InviteResource<'_>)
        ensures
            r.spec_client() == self.transport(),
    ;

    /// Work with templates.
    fn templates(&self) -> (r: TemplateResource<'_>)
        ensures
            r.spec_client() == self.transport(),
    ;

    /// Work with users.
    fn users(&self) -> (r: UserResource<'_>)
        ensures
            r.spec_client() == self.transport(),
    ;

    /// Work with voice regions.
    fn voice_regions(&self) -> (r: VoiceRegionResource<'_>)
        ensures
            r.spec_client() == self.transport(),
    ;

    /// Work with webhooks.
    fn webhooks(&self) -> (r: WebhookResource<'_>)
        ensures
            r.spec_client() == self.transport(),
    ;
}

impl Resource for Client {
    /// A client is its own transport handle.
    open spec fn transport(&self) -> &Client {
        self
    }

    /// Work with channels.
    fn channels(&self) -> (r: ChannelResource<'_>) {
        ChannelResource::new(self)
    }

    /// Work with gateways.
    fn gateways(&self) -> (r: GatewayResource<'_>) {
        GatewayResource::new(self)
    }

    /// Work with guilds.
    fn guilds(&self) -> (r: GuildResource<'_>) {
        GuildResource::new(self)
    }

    /// Work with invites.
    fn invites(&self) -> (r: InviteResource<'_>) {
        InviteResource::new(self)
    }

    /// Work with templates.
    fn templates(&self) -> (r: TemplateResource<'_>) {
        TemplateResource::new(self)
    }

    /// Work with users.
    fn users(&self) -> (r: UserResource<'_>) {
        UserResource::new(self)
    }

    /// Work with voice regions.
    fn voice_regions(&self) -> (r: VoiceRegionResource<'_>) {
        VoiceRegionResource::new(self)
    }

    /// Work with webhooks.
    fn webhooks(&self) -> (r: WebhookResource<'_>) {
        WebhookResource::new(self)
    }
}

/// Nodes are pure coordinates and share nothing but the transport handle:
/// two nodes built independently for different guilds address different
/// tuples, each holding exactly its own guild identifier, however the nodes
/// are used afterwards.
pub proof fn lemma_sibling_nodes_independent(a: GuildBanResource, b: GuildBanResource)
    requires
        a.spec_guild_id()@ != b.spec_guild_id()@,
    ensures
        a.tuple() == seq![a.spec_guild_id()@],
        b.tuple() == seq![b.spec_guild_id()@],
        a.tuple() != b.tuple(),
{
    assert(a.tuple()[0] != b.tuple()[0]);
}

} // verus!
