//! Work with a guild member's voice states.

use vstd::prelude::*;

use crate::id::{ChannelId, GuildId, UserId};
use crate::route::{Addressed, Route};
use crate::transport;
use twilight_http::client::Client;
use twilight_http::request::guild::user::{
    UpdateCurrentUserVoiceState, UpdateUserVoiceState,
};

verus! {

/// Work with a guild member's voice states.
#[derive(Clone, Copy, Debug)]
pub struct GuildVoiceStateResource<'a> {
    client: &'a Client,
    guild_id: GuildId,
    user_id: UserId,
}

impl<'a> GuildVoiceStateResource<'a> {
    /// The transport handle this node was built over.
    pub closed spec fn spec_client(&self) -> &'a Client {
        self.client
    }

    /// The guild identifier bound at this node.
    pub closed spec fn spec_guild_id(&self) -> GuildId {
        self.guild_id
    }

    /// The user identifier bound at this node.
    pub closed spec fn spec_user_id(&self) -> UserId {
        self.user_id
    }

    /// The identifiers addressing this node.
    pub open spec fn tuple(&self) -> Seq<u64> {
        seq![self.spec_guild_id()@, self.spec_user_id()@]
    }

    /// Create a resource instance to work with a guild's voice states.
    pub fn new(client: &'a Client, guild_id: GuildId, user_id: UserId) -> (r: Self)
        ensures
            r.spec_client() == client,
            r.spec_guild_id() == guild_id,
            r.spec_user_id() == user_id,
    {
        GuildVoiceStateResource { client, guild_id, user_id }
    }

    /// The guild identifier bound at this node.
    pub fn guild_id(&self) -> (r: GuildId)
        ensures
            r == self.spec_guild_id(),
    {
        self.guild_id
    }

    /// The user identifier bound at this node.
    pub fn user_id(&self) -> (r: UserId)
        ensures
            r == self.spec_user_id(),
    {
        self.user_id
    }

    /// Update a guild member's voice state.
    pub fn patch(&self, channel_id: ChannelId) -> (r: Addressed<UpdateUserVoiceState<'a>>)
        ensures
            r.route@ == (Route::GuildVoiceStatePatch {
                guild_id: self.spec_guild_id()@,
                user_id: self.spec_user_id()@,
                channel_id: channel_id@,
            }),
    {
        let guild_id: u64 = self.guild_id.value();
        let user_id: u64 = self.user_id.value();
        let channel_id: u64 = channel_id.value();
        Addressed {
            inner: transport::update_user_voice_state(self.client, guild_id, user_id, channel_id),
            route: Ghost(Route::GuildVoiceStatePatch { guild_id, user_id, channel_id }),
        }
    }
}

/// Special calls.
impl<'a> GuildVoiceStateResource<'a> {
    /// Update the current user's voice state in a guild.
    pub fn patch_current_user(&self, channel_id: ChannelId) -> (r: Addressed<UpdateCurrentUserVoiceState<'a>>)
        ensures
            r.route@ == (Route::GuildVoiceStatePatchCurrentUser {
                guild_id: self.spec_guild_id()@,
                channel_id: channel_id@,
            }),
    {
        let guild_id: u64 = self.guild_id.value();
        let channel_id: u64 = channel_id.value();
        Addressed {
            inner: transport::update_current_user_voice_state(self.client, guild_id, channel_id),
            route: Ghost(Route::GuildVoiceStatePatchCurrentUser { guild_id, channel_id }),
        }
    }
}

} // verus!
