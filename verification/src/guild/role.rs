//! Work with a guild's roles.

use vstd::prelude::*;

use crate::id::{GuildId, RoleId};
use crate::route::{Addressed, Route};
use crate::transport;
use twilight_http::client::Client;
use twilight_http::request::guild::role::{CreateRole, DeleteRole, GetGuildRoles, UpdateRole};

verus! {

/// Work with a guild's roles.
#[derive(Clone, Copy, Debug)]
pub struct GuildRoleResource<'a> {
    client: &'a Client,
    guild_id: GuildId,
}

impl<'a> GuildRoleResource<'a> {
    /// The transport handle this node was built over.
    pub closed spec fn spec_client(&self) -> &'a Client {
        self.client
    }

    /// The guild identifier bound at this node.
    pub closed spec fn spec_guild_id(&self) -> GuildId {
        self.guild_id
    }

    /// The identifiers addressing this node.
    pub open spec fn tuple(&self) -> Seq<u64> {
        seq![self.spec_guild_id()@]
    }

    /// Create a resource instance to work with a guild's roles.
    pub fn new(client: &'a Client, guild_id: GuildId) -> (r: Self)
        ensures
            r.spec_client() == client,
            r.spec_guild_id() == guild_id,
    {
        GuildRoleResource { client, guild_id }
    }

    /// The guild identifier bound at this node.
    pub fn guild_id(&self) -> (r: GuildId)
        ensures
            r == self.spec_guild_id(),
    {
        self.guild_id
    }

    /// Delete a guild's role.
    pub fn delete(&self, role_id: RoleId) -> (r: Addressed<DeleteRole<'a>>)
        ensures
            r.route@ == (Route::GuildRoleDelete {
                guild_id: self.spec_guild_id()@,
                role_id: role_id@,
            }),
    {
        let guild_id: u64 = self.guild_id.value();
        let role_id: u64 = role_id.value();
        Addressed {
            inner: transport::delete_role(self.client, guild_id, role_id),
            route: Ghost(Route::GuildRoleDelete { guild_id, role_id }),
        }
    }

    /// List a guild's roles.
    pub fn list(&self) -> (r: Addressed<GetGuildRoles<'a>>)
        ensures
            r.route@ == (Route::GuildRoleList { guild_id: self.spec_guild_id()@ }),
    {
        let guild_id: u64 = self.guild_id.value();
        Addressed {
            inner: transport::roles(self.client, guild_id),
            route: Ghost(Route::GuildRoleList { guild_id }),
        }
    }

    /// Update a guild's role.
    pub fn patch(&self, role_id: RoleId) -> (r: Addressed<UpdateRole<'a>>)
        ensures
            r.route@ == (Route::GuildRolePatch {
                guild_id: self.spec_guild_id()@,
                role_id: role_id@,
            }),
    {
        let guild_id: u64 = self.guild_id.value();
        let role_id: u64 = role_id.value();
        Addressed {
            inner: transport::update_role(self.client, guild_id, role_id),
            route: Ghost(Route::GuildRolePatch { guild_id, role_id }),
        }
    }

    /// Create a guild role.
    pub fn post(&self) -> (r: Addressed<CreateRole<'a>>)
        ensures
            r.route@ == (Route::GuildRolePost { guild_id: self.spec_guild_id()@ }),
    {
        let guild_id: u64 = self.guild_id.value();
        Addressed {
            inner: transport::create_role(self.client, guild_id),
            route: Ghost(Route::GuildRolePost { guild_id }),
        }
    }
}

} // verus!
