//! Work with a guild's RPC pruning.

use vstd::prelude::*;

use crate::id::GuildId;
use crate::route::{Addressed, Route};
use crate::transport;
use twilight_http::client::Client;
use twilight_http::request::guild::{CreateGuildPrune, GetGuildPruneCount};

verus! {

/// Work with a guild's RPC pruning.
#[derive(Clone, Copy, Debug)]
pub struct GuildPruneRpc<'a> {
    client: &'a Client,
    guild_id: GuildId,
}

impl<'a> GuildPruneRpc<'a> {
    /// The transport handle this node was built over.
    pub closed spec fn spec_client(&self) -> &'a Client {
        self.client
    }

    /// The guild identifier bound at this node.
    pub closed spec fn spec_guild_id(&self) -> GuildId {
        self.guild_id
    }

    /// The identifiers addressing this node.
    pub open spec fn tuple(&self) -> Seq<u64> {
        seq![self.spec_guild_id()@]
    }

    /// Create a resource instance to work with a guild's pruning.
    pub fn new(client: &'a Client, guild_id: GuildId) -> (r: Self)
        ensures
            r.spec_client() == client,
            r.spec_guild_id() == guild_id,
    {
        GuildPruneRpc { client, guild_id }
    }

    /// The guild identifier bound at this node.
    pub fn guild_id(&self) -> (r: GuildId)
        ensures
            r == self.spec_guild_id(),
    {
        self.guild_id
    }

    /// Get a guild's prune information.
    pub fn get(&self) -> (r: Addressed<GetGuildPruneCount<'a>>)
        ensures
            r.route@ == (Route::GuildPruneGet { guild_id: self.spec_guild_id()@ }),
    {
        let guild_id: u64 = self.guild_id.value();
        Addressed {
            inner: transport::guild_prune_count(self.client, guild_id),
            route: Ghost(Route::GuildPruneGet { guild_id }),
        }
    }

    /// Begin a guild prune.
    pub fn post(&self) -> (r: Addressed<CreateGuildPrune<'a>>)
        ensures
            r.route@ == (Route::GuildPrunePost { guild_id: self.spec_guild_id()@ }),
    {
        let guild_id: u64 = self.guild_id.value();
        Addressed {
            inner: transport::create_guild_prune(self.client, guild_id),
            route: Ghost(Route::GuildPrunePost { guild_id }),
        }
    }
}

} // verus!
