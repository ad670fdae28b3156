//! Work with a guild member's roles.

use vstd::prelude::*;

use crate::id::{GuildId, RoleId, UserId};
use crate::route::{Addressed, Route};
use crate::transport;
use twilight_http::client::Client;
use twilight_http::request::guild::member::{AddRoleToMember, RemoveRoleFromMember};

verus! {

/// Work with a guild member's roles.
#[derive(Clone, Copy, Debug)]
pub struct GuildMemberRoleResource<'a> {
    client: &'a Client,
    guild_id: GuildId,
    user_id: UserId,
}

impl<'a> GuildMemberRoleResource<'a> {
    /// The transport handle this node was built over.
    pub closed spec fn spec_client(&self) -> &'a Client {
        self.client
    }

    /// The guild identifier bound at this node.
    pub closed spec fn spec_guild_id(&self) -> GuildId {
        self.guild_id
    }

    /// The user identifier bound at this node.
    pub closed spec fn spec_user_id(&self) -> UserId {
        self.user_id
    }

    /// The identifiers addressing this node.
    pub open spec fn tuple(&self) -> Seq<u64> {
        seq![self.spec_guild_id()@, self.spec_user_id()@]
    }

    /// Create a resource instance to work with a guild member's roles.
    pub fn new(client: &'a Client, guild_id: GuildId, user_id: UserId) -> (r: Self)
        ensures
            r.spec_client() == client,
            r.spec_guild_id() == guild_id,
            r.spec_user_id() == user_id,
    {
        GuildMemberRoleResource { client, guild_id, user_id }
    }

    /// The guild identifier bound at this node.
    pub fn guild_id(&self) -> (r: GuildId)
        ensures
            r == self.spec_guild_id(),
    {
        self.guild_id
    }

    /// The user identifier bound at this node.
    pub fn user_id(&self) -> (r: UserId)
        ensures
            r == self.spec_user_id(),
    {
        self.user_id
    }

    /// Remove a role from a guild member.
    pub fn delete(&self, role_id: RoleId) -> (r: Addressed<RemoveRoleFromMember<'a>>)
        ensures
            r.route@ == (Route::GuildMemberRoleDelete {
                guild_id: self.spec_guild_id()@,
                user_id: self.spec_user_id()@,
                role_id: role_id@,
            }),
    {
        let guild_id: u64 = self.guild_id.value();
        let user_id: u64 = self.user_id.value();
        let role_id: u64 = role_id.value();
        Addressed {
            inner: transport::remove_guild_member_role(self.client, guild_id, user_id, role_id),
            route: Ghost(Route::GuildMemberRoleDelete { guild_id, user_id, role_id }),
        }
    }

    /// Add a role to a guild member.
    pub fn put(&self, role_id: RoleId) -> (r: Addressed<AddRoleToMember<'a>>)
        ensures
            r.route@ == (Route::GuildMemberRolePut {
                guild_id: self.spec_guild_id()@,
                user_id: self.spec_user_id()@,
                role_id: role_id@,
            }),
    {
        let guild_id: u64 = self.guild_id.value();
        let user_id: u64 = self.user_id.value();
        let role_id: u64 = role_id.value();
        Addressed {
            inner: transport::add_guild_member_role(self.client, guild_id, user_id, role_id),
            route: Ghost(Route::GuildMemberRolePut { guild_id, user_id, role_id }),
        }
    }
}

} // verus!
