//! Work with a guild's bans.

use vstd::prelude::*;

use crate::id::{GuildId, UserId};
use crate::route::{Addressed, Route};
use crate::transport;
use twilight_http::client::Client;
use twilight_http::request::guild::ban::{CreateBan, DeleteBan, GetBan, GetBans};

verus! {

/// Work with a guild's bans.
#[derive(Clone, Copy, Debug)]
pub struct GuildBanResource<'a> {
    client: &'a Client,
    guild_id: GuildId,
}

impl<'a> GuildBanResource<'a> {
    /// The transport handle this node was built over.
    pub closed spec fn spec_client(&self) -> &'a Client {
        self.client
    }

    /// The guild identifier bound at this node.
    pub closed spec fn spec_guild_id(&self) -> GuildId {
        self.guild_id
    }

    /// The identifiers addressing this node.
    pub open spec fn tuple(&self) -> Seq<u64> {
        seq![self.spec_guild_id()@]
    }

    /// Create a resource instance to work with a guild's bans.
    pub fn new(client: &'a Client, guild_id: GuildId) -> (r: Self)
        ensures
            r.spec_client() == client,
            r.spec_guild_id() == guild_id,
    {
        GuildBanResource { client, guild_id }
    }

    /// The guild identifier bound at this node.
    pub fn guild_id(&self) -> (r: GuildId)
        ensures
            r == self.spec_guild_id(),
    {
        self.guild_id
    }

    /// Delete a guild ban.
    pub fn delete(&self, user_id: UserId) -> (r: Addressed<DeleteBan<'a>>)
        ensures
            r.route@ == (Route::GuildBanDelete {
                guild_id: self.spec_guild_id()@,
                user_id: user_id@,
            }),
    {
        let guild_id: u64 = self.guild_id.value();
        let user_id: u64 = user_id.value();
        Addressed {
            inner: transport::delete_ban(self.client, guild_id, user_id),
            route: Ghost(Route::GuildBanDelete { guild_id, user_id }),
        }
    }

    /// Get a guild ban.
    pub fn get(&self, user_id: UserId) -> (r: Addressed<GetBan<'a>>)
        ensures
            r.route@ == (Route::GuildBanGet {
                guild_id: self.spec_guild_id()@,
                user_id: user_id@,
            }),
    {
        let guild_id: u64 = self.guild_id.value();
        let user_id: u64 = user_id.value();
        Addressed {
            inner: transport::ban(self.client, guild_id, user_id),
            route: Ghost(Route::GuildBanGet { guild_id, user_id }),
        }
    }

    /// List a guild's bans.
    pub fn list(&self) -> (r: Addressed<GetBans<'a>>)
        ensures
            r.route@ == (Route::GuildBanList { guild_id: self.spec_guild_id()@ }),
    {
        let guild_id: u64 = self.guild_id.value();
        Addressed {
            inner: transport::bans(self.client, guild_id),
            route: Ghost(Route::GuildBanList { guild_id }),
        }
    }

    /// Create a guild ban.
    pub fn post(&self, user_id: UserId) -> (r: Addressed<CreateBan<'a>>)
        ensures
            r.route@ == (Route::GuildBanPost {
                guild_id: self.spec_guild_id()@,
                user_id: user_id@,
            }),
    {
        let guild_id: u64 = self.guild_id.value();
        let user_id: u64 = user_id.value();
        Addressed {
            inner: transport::create_ban(self.client, guild_id, user_id),
            route: Ghost(Route::GuildBanPost { guild_id, user_id }),
        }
    }
}

} // verus!
