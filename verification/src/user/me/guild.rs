//! Work with the current user's guilds.

use vstd::prelude::*;

use crate::id::GuildId;
use crate::route::{Addressed, Route};
use crate::transport;
use twilight_http::client::Client;
use twilight_http::request::user::{GetCurrentUserGuilds, LeaveGuild};

verus! {

/// Work with the current user's guilds.
#[derive(Clone, Copy, Debug)]
pub struct UserMeGuildResource<'a> {
    client: &'a Client,
}

impl<'a> UserMeGuildResource<'a> {
    /// The transport handle this node was built over.
    pub closed spec fn spec_client(&self) -> &'a Client {
        self.client
    }

    /// The identifiers addressing this node.
    pub open spec fn tuple(&self) -> Seq<u64> {
        Seq::empty()
    }

    /// Create a resource instance to work with the current user's guilds.
    pub fn new(client: &'a Client) -> (r: Self)
        ensures
            r.spec_client() == client,
    {
        UserMeGuildResource { client }
    }

    /// Leave one of the current user's guilds.
    pub fn delete(&self, guild_id: GuildId) -> (r: Addressed<LeaveGuild<'a>>)
        ensures
            r.route@ == (Route::UserMeGuildDelete { guild_id: guild_id@ }),
    {
        let guild_id: u64 = guild_id.value();
        Addressed {
            inner: transport::leave_guild(self.client, guild_id),
            route: Ghost(Route::UserMeGuildDelete { guild_id }),
        }
    }

    /// List the current user's guilds.
    pub fn list(&self) -> (r: Addressed<GetCurrentUserGuilds<'a>>)
        ensures
            r.route@ == Route::UserMeGuildList,
    {
        Addressed {
            inner: transport::current_user_guilds(self.client),
            route: Ghost(Route::UserMeGuildList),
        }
    }
}

} // verus!
