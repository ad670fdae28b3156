//! Work with a guild's vanity URL.

use vstd::prelude::*;

use crate::id::GuildId;
use crate::route::{Addressed, Route};
use crate::transport;
use twilight_http::client::Client;
use twilight_http::request::guild::GetGuildVanityUrl;

verus! {

/// Work with a guild's vanity URL.
#[derive(Clone, Copy, Debug)]
pub struct GuildVanityUrlResource<'a> {
    client: &'a Client,
    guild_id: GuildId,
}

impl<'a> GuildVanityUrlResource<'a> {
    /// The transport handle this node was built over.
    pub closed spec fn spec_client(&self) -> &'a Client {
        self.client
    }

    /// The guild identifier bound at this node.
    pub closed spec fn spec_guild_id(&self) -> GuildId {
        self.guild_id
    }

    /// The identifiers addressing this node.
    pub open spec fn tuple(&self) -> Seq<u64> {
        seq![self.spec_guild_id()@]
    }

    /// Create a resource instance to work with a guild's vanity URL.
    pub fn new(client: &'a Client, guild_id: GuildId) -> (r: Self)
        ensures
            r.spec_client() == client,
            r.spec_guild_id() == guild_id,
    {
        GuildVanityUrlResource { client, guild_id }
    }

    /// The guild identifier bound at this node.
    pub fn guild_id(&self) -> (r: GuildId)
        ensures
            r == self.spec_guild_id(),
    {
        self.guild_id
    }

    /// Get a guild's vanity URL.
    pub fn get(&self) -> (r: Addressed<GetGuildVanityUrl<'a>>)
        ensures
            r.route@ == (Route::GuildVanityUrlGet { guild_id: self.spec_guild_id()@ }),
    {
        let guild_id: u64 = self.guild_id.value();
        Addressed {
            inner: transport::guild_vanity_url(self.client, guild_id),
            route: Ghost(Route::GuildVanityUrlGet { guild_id }),
        }
    }
}

} // verus!
