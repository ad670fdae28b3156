//! Work with a guild's channels.

use vstd::prelude::*;

use crate::id::GuildId;
use crate::route::{Addressed, Route};
use crate::transport;
use crate::validation::{valid_channel_name, ValidationFault};
use twilight_http::client::Client;
use twilight_http::request::guild::update_guild_channel_positions::Position;
use twilight_http::request::guild::{
    CreateGuildChannel, GetGuildChannels, UpdateGuildChannelPositions,
};

verus! {

/// Work with a guild's channels.
#[derive(Clone, Copy, Debug)]
pub struct GuildChannelResource<'a> {
    client: &'a Client,
    guild_id: GuildId,
}

impl<'a> GuildChannelResource<'a> {
    /// The transport handle this node was built over.
    pub closed spec fn spec_client(&self) -> &'a Client {
        self.client
    }

    /// The guild identifier bound at this node.
    pub closed spec fn spec_guild_id(&self) -> GuildId {
        self.guild_id
    }

    /// The identifiers addressing this node.
    pub open spec fn tuple(&self) -> Seq<u64> {
        seq![self.spec_guild_id()@]
    }

    /// Create a resource instance to work with a guild's channels.
    pub fn new(client: &'a Client, guild_id: GuildId) -> (r: Self)
        ensures
            r.spec_client() == client,
            r.spec_guild_id() == guild_id,
    {
        GuildChannelResource { client, guild_id }
    }

    /// The guild identifier bound at this node.
    pub fn guild_id(&self) -> (r: GuildId)
        ensures
            r == self.spec_guild_id(),
    {
        self.guild_id
    }

    /// List a guild's channels.
    pub fn list(&self) -> (r: Addressed<GetGuildChannels<'a>>)
        ensures
            r.route@ == (Route::GuildChannelList { guild_id: self.spec_guild_id()@ }),
    {
        let guild_id: u64 = self.guild_id.value();
        Addressed {
            inner: transport::guild_channels(self.client, guild_id),
            route: Ghost(Route::GuildChannelList { guild_id }),
        }
    }

    /// Update the positions of all of a guild's channels.
    pub fn patch_list(&self, channels: &'a [Position]) -> (r: Addressed<UpdateGuildChannelPositions<'a>>)
        ensures
            r.route@ == (Route::GuildChannelPatchList {
                guild_id: self.spec_guild_id()@,
                positions: channels@,
            }),
    {
        let guild_id: u64 = self.guild_id.value();
        Addressed {
            inner: transport::update_guild_channel_positions(self.client, guild_id, channels),
            route: Ghost(Route::GuildChannelPatchList { guild_id, positions: channels@ }),
        }
    }

    /// Create a guild channel.
    ///
    /// # Errors
    ///
    /// Returns [`ValidationFault::ChannelName`] if the name is not a valid channel name.
    pub fn post(&self, name: &'a str) -> (r: Result<Addressed<CreateGuildChannel<'a>>, ValidationFault>)
        ensures
            r is Ok <==> valid_channel_name(name@),
            r matches Ok(a) ==> a.route@ == (Route::GuildChannelPost {
                guild_id: self.spec_guild_id()@,
                name: name@,
            }),
            r matches Err(e) ==> e == ValidationFault::ChannelName,
    {
        let guild_id: u64 = self.guild_id.value();
        match transport::create_guild_channel(self.client, guild_id, name) {
            Ok(builder) => Ok(
                Addressed {
                    inner: builder,
                    route: Ghost(Route::GuildChannelPost { guild_id, name: name@ }),
                },
            ),
            Err(_) => Err(ValidationFault::ChannelName),
        }
    }
}

} // verus!
