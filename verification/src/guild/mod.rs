//! Work with guilds and their relationships.

pub mod member;

mod audit_log;
mod ban;
mod channel;
mod emoji;
mod integration;
mod invite;
mod preview;
mod prune;
mod role;
mod template;
mod vanity_url;
mod voice_region;
mod voice_state;
mod webhook;
mod welcome_screen;
mod widget;

pub use self::{
    audit_log::GuildAuditLogResource, ban::GuildBanResource, channel::GuildChannelResource,
    emoji::GuildEmojiResource, integration::GuildIntegrationResource,
    invite::GuildInviteResource, member::GuildMemberResource, preview::GuildPreviewResource,
    prune::GuildPruneRpc, role::GuildRoleResource, template::GuildTemplateResource,
    vanity_url::GuildVanityUrlResource, voice_region::GuildVoiceRegionResource,
    voice_state::GuildVoiceStateResource, webhook::GuildWebhookResource,
    welcome_screen::GuildWelcomeScreenResource, widget::GuildWidgetResource,
};

use vstd::prelude::*;

use crate::id::{GuildId, UserId};
use crate::route::{Addressed, Route};
use crate::transport;
use crate::validation::{valid_guild_name, ValidationFault};
use twilight_http::client::Client;
use twilight_http::request::guild::{CreateGuild, DeleteGuild, GetGuild, UpdateGuild};
use twilight_http::request::template::CreateGuildFromTemplate;

verus! {

/// Work with guilds.
#[derive(Clone, Copy, Debug)]
pub struct GuildResource<'a> {
    client: &'a Client,
}

impl<'a> GuildResource<'a> {
    /// The transport handle this node was built over.
    pub closed spec fn spec_client(&self) -> &'a Client {
        self.client
    }

    /// The identifiers addressing this node.
    pub open spec fn tuple(&self) -> Seq<u64> {
        Seq::empty()
    }

    /// Create a resource instance to work with guilds.
    pub fn new(client: &'a Client) -> (r: Self)
        ensures
            r.spec_client() == client,
    {
        GuildResource { client }
    }

    /// Delete a guild.
    pub fn delete(&self, id: GuildId) -> (r: Addressed<DeleteGuild<'a>>)
        ensures
            r.route@ == (Route::GuildDelete { guild_id: id@ }),
    {
        let guild_id: u64 = id.value();
        Addressed {
            inner: transport::delete_guild(self.client, guild_id),
            route: Ghost(Route::GuildDelete { guild_id }),
        }
    }

    /// Get a guild.
    pub fn get(&self, id: GuildId) -> (r: Addressed<GetGuild<'a>>)
        ensures
            r.route@ == (Route::GuildGet { guild_id: id@ }),
    {
        let guild_id: u64 = id.value();
        Addressed {
            inner: transport::guild(self.client, guild_id),
            route: Ghost(Route::GuildGet { guild_id }),
        }
    }

    /// Update a guild.
    pub fn patch(&self, id: GuildId) -> (r: Addressed<UpdateGuild<'a>>)
        ensures
            r.route@ == (Route::GuildPatch { guild_id: id@ }),
    {
        let guild_id: u64 = id.value();
        Addressed {
            inner: transport::update_guild(self.client, guild_id),
            route: Ghost(Route::GuildPatch { guild_id }),
        }
    }

    /// Create a guild.
    ///
    /// # Errors
    ///
    /// Returns [`ValidationFault::GuildName`] if the name is not a valid guild name.
    pub fn post(&self, name: String) -> (r: Result<Addressed<CreateGuild<'a>>, ValidationFault>)
        ensures
            r is Ok <==> valid_guild_name(name@),
            r matches Ok(a) ==> a.route@ == (Route::GuildPost { name: name@ }),
            r matches Err(e) ==> e == ValidationFault::GuildName,
    {
        let ghost name_view = name@;
        match transport::create_guild(self.client, name) {
            Ok(builder) => Ok(
                Addressed {
                    inner: builder,
                    route: Ghost(Route::GuildPost { name: name_view }),
                },
            ),
            Err(_) => Err(ValidationFault::GuildName),
        }
    }
}

/// RPC calls.
impl<'a> GuildResource<'a> {
    /// Work with a guild's prune capability.
    pub fn prune(&self, guild_id: GuildId) -> (r: GuildPruneRpc<'a>)
        ensures
            r.spec_client() == self.spec_client(),
            r.spec_guild_id() == guild_id,
            r.tuple() == self.tuple().push(guild_id@),
    {
        GuildPruneRpc::new(self.client, guild_id)
    }

    /// Create a guild from a template.
    ///
    /// # Errors
    ///
    /// Returns [`ValidationFault::GuildName`] if the name is not a valid guild name.
    pub fn post_from_template(&self, template_code: &'a str, name: &'a str) -> (r: Result<Addressed<CreateGuildFromTemplate<'a>>, ValidationFault>)
        ensures
            r is Ok <==> valid_guild_name(name@),
            r matches Ok(a) ==> a.route@ == (Route::GuildPostFromTemplate {
                template_code: template_code@,
                name: name@,
            }),
            r matches Err(e) ==> e == ValidationFault::GuildName,
    {
        match transport::create_guild_from_template(self.client, template_code, name) {
            Ok(builder) => Ok(
                Addressed {
                    inner: builder,
                    route: Ghost(Route::GuildPostFromTemplate {
                        template_code: template_code@,
                        name: name@,
                    }),
                },
            ),
            Err(_) => Err(ValidationFault::GuildName),
        }
    }
}

/// 1:1 guild relationships.
impl<'a> GuildResource<'a> {
    /// Work with a guild's preview.
    pub fn preview(&self, guild_id: GuildId) -> (r: GuildPreviewResource<'a>)
        ensures
            r.spec_client() == self.spec_client(),
            r.spec_guild_id() == guild_id,
            r.tuple() == self.tuple().push(guild_id@),
    {
        GuildPreviewResource::new(self.client, guild_id)
    }

    /// Work with a guild's vanity URL.
    pub fn vanity_url(&self, guild_id: GuildId) -> (r: GuildVanityUrlResource<'a>)
        ensures
            r.spec_client() == self.spec_client(),
            r.spec_guild_id() == guild_id,
            r.tuple() == self.tuple().push(guild_id@),
    {
        GuildVanityUrlResource::new(self.client, guild_id)
    }

    /// Work with a guild's welcome screen.
    pub fn welcome_screen(&self, guild_id: GuildId) -> (r: GuildWelcomeScreenResource<'a>)
        ensures
            r.spec_client() == self.spec_client(),
            r.spec_guild_id() == guild_id,
            r.tuple() == self.tuple().push(guild_id@),
    {
        GuildWelcomeScreenResource::new(self.client, guild_id)
    }

    /// Work with a guild's widget.
    pub fn widget(&self, guild_id: GuildId) -> (r: GuildWidgetResource<'a>)
        ensures
            r.spec_client() == self.spec_client(),
            r.spec_guild_id() == guild_id,
            r.tuple() == self.tuple().push(guild_id@),
    {
        GuildWidgetResource::new(self.client, guild_id)
    }
}

/// 1:M guild relationships.
impl<'a> GuildResource<'a> {
    /// Work with a guild's audit log entries.
    pub fn audit_logs(&self, guild_id: GuildId) -> (r: GuildAuditLogResource<'a>)
        ensures
            r.spec_client() == self.spec_client(),
            r.spec_guild_id() == guild_id,
            r.tuple() == self.tuple().push(guild_id@),
    {
        GuildAuditLogResource::new(self.client, guild_id)
    }

    /// Work with a guild's bans.
    pub fn bans(&self, guild_id: GuildId) -> (r: GuildBanResource<'a>)
        ensures
            r.spec_client() == self.spec_client(),
            r.spec_guild_id() == guild_id,
            r.tuple() == self.tuple().push(guild_id@),
    {
        GuildBanResource::new(self.client, guild_id)
    }

    /// Work with a guild's channels.
    pub fn channels(&self, guild_id: GuildId) -> (r: GuildChannelResource<'a>)
        ensures
            r.spec_client() == self.spec_client(),
            r.spec_guild_id() == guild_id,
            r.tuple() == self.tuple().push(guild_id@),
    {
        GuildChannelResource::new(self.client, guild_id)
    }

    /// Work with a guild's emojis.
    pub fn emojis(&self, guild_id: GuildId) -> (r: GuildEmojiResource<'a>)
        ensures
            r.spec_client() == self.spec_client(),
            r.spec_guild_id() == guild_id,
            r.tuple() == self.tuple().push(guild_id@),
    {
        GuildEmojiResource::new(self.client, guild_id)
    }

    /// Work with a guild's integrations.
    pub fn integrations(&self, guild_id: GuildId) -> (r: GuildIntegrationResource<'a>)
        ensures
            r.spec_client() == self.spec_client(),
            r.spec_guild_id() == guild_id,
            r.tuple() == self.tuple().push(guild_id@),
    {
        GuildIntegrationResource::new(self.client, guild_id)
    }

    /// Work with a guild's invites.
    pub fn invites(&self, guild_id: GuildId) -> (r: GuildInviteResource<'a>)
        ensures
            r.spec_client() == self.spec_client(),
            r.spec_guild_id() == guild_id,
            r.tuple() == self.tuple().push(guild_id@),
    {
        GuildInviteResource::new(self.client, guild_id)
    }

    /// Work with a guild's members.
    pub fn members(&self, guild_id: GuildId) -> (r: GuildMemberResource<'a>)
        ensures
            r.spec_client() == self.spec_client(),
            r.spec_guild_id() == guild_id,
            r.tuple() == self.tuple().push(guild_id@),
    {
        GuildMemberResource::new(self.client, guild_id)
    }

    /// Work with a guild's roles.
    pub fn roles(&self, guild_id: GuildId) -> (r: GuildRoleResource<'a>)
        ensures
            r.spec_client() == self.spec_client(),
            r.spec_guild_id() == guild_id,
            r.tuple() == self.tuple().push(guild_id@),
    {
        GuildRoleResource::new(self.client, guild_id)
    }

    /// Work with a guild's templates.
    pub fn templates(&self, guild_id: GuildId) -> (r: GuildTemplateResource<'a>)
        ensures
            r.spec_client() == self.spec_client(),
            r.spec_guild_id() == guild_id,
            r.tuple() == self.tuple().push(guild_id@),
    {
        GuildTemplateResource::new(self.client, guild_id)
    }

    /// Work with a guild's voice regions.
    pub fn voice_regions(&self, guild_id: GuildId) -> (r: GuildVoiceRegionResource<'a>)
        ensures
            r.spec_client() == self.spec_client(),
            r.spec_guild_id() == guild_id,
            r.tuple() == self.tuple().push(guild_id@),
    {
        GuildVoiceRegionResource::new(self.client, guild_id)
    }

    /// Work with a guild's voice states.
    pub fn voice_states(&self, guild_id: GuildId, user_id: UserId) -> (r: GuildVoiceStateResource<'a>)
        ensures
            r.spec_client() == self.spec_client(),
            r.spec_guild_id() == guild_id,
            r.spec_user_id() == user_id,
            r.tuple() == self.tuple().push(guild_id@).push(user_id@),
    {
        GuildVoiceStateResource::new(self.client, guild_id, user_id)
    }

    /// Work with a guild's webhooks.
    pub fn webhooks(&self, guild_id: GuildId) -> (r: GuildWebhookResource<'a>)
        ensures
            r.spec_client() == self.spec_client(),
            r.spec_guild_id() == guild_id,
            r.tuple() == self.tuple().push(guild_id@),
    {
        GuildWebhookResource::new(self.client, guild_id)
    }
}

} // verus!
