//! Work with guild members and their relationships.

mod nickname;
mod role;

pub use self::{nickname::GuildMemberNicknameResource, role::GuildMemberRoleResource};

use vstd::prelude::*;

use crate::id::{GuildId, UserId};
use crate::route::{Addressed, Route};
use crate::transport;
use twilight_http::client::Client;
use twilight_http::request::guild::member::{
    AddGuildMember, GetGuildMembers, GetMember, RemoveMember, SearchGuildMembers,
    UpdateGuildMember,
};

verus! {

/// Work with a guild's members.
#[derive(Clone, Copy, Debug)]
pub struct GuildMemberResource<'a> {
    client: &'a Client,
    guild_id: GuildId,
}

impl<'a> GuildMemberResource<'a> {
    /// The transport handle this node was built over.
    pub closed spec fn spec_client(&self) -> &'a Client {
        self.client
    }

    /// The guild identifier bound at this node.
    pub closed spec fn spec_guild_id(&self) -> GuildId {
        self.guild_id
    }

    /// The identifiers addressing this node.
    pub open spec fn tuple(&self) -> Seq<u64> {
        seq![self.spec_guild_id()@]
    }

    /// Create a resource instance to work with a guild's members.
    pub fn new(client: &'a Client, guild_id: GuildId) -> (r: Self)
        ensures
            r.spec_client() == client,
            r.spec_guild_id() == guild_id,
    {
        GuildMemberResource { client, guild_id }
    }

    /// The guild identifier bound at this node.
    pub fn guild_id(&self) -> (r: GuildId)
        ensures
            r == self.spec_guild_id(),
    {
        self.guild_id
    }

    /// Remove a member from a guild.
    pub fn delete(&self, user_id: UserId) -> (r: Addressed<RemoveMember<'a>>)
        ensures
            r.route@ == (Route::GuildMemberDelete {
                guild_id: self.spec_guild_id()@,
                user_id: user_id@,
            }),
    {
        let guild_id: u64 = self.guild_id.value();
        let user_id: u64 = user_id.value();
        Addressed {
            inner: transport::remove_guild_member(self.client, guild_id, user_id),
            route: Ghost(Route::GuildMemberDelete { guild_id, user_id }),
        }
    }

    /// Get a guild member.
    pub fn get(&self, user_id: UserId) -> (r: Addressed<GetMember<'a>>)
        ensures
            r.route@ == (Route::GuildMemberGet {
                guild_id: self.spec_guild_id()@,
                user_id: user_id@,
            }),
    {
        let guild_id: u64 = self.guild_id.value();
        let user_id: u64 = user_id.value();
        Addressed {
            inner: transport::guild_member(self.client, guild_id, user_id),
            route: Ghost(Route::GuildMemberGet { guild_id, user_id }),
        }
    }

    /// List a guild's members.
    pub fn list(&self) -> (r: Addressed<GetGuildMembers<'a>>)
        ensures
            r.route@ == (Route::GuildMemberList { guild_id: self.spec_guild_id()@ }),
    {
        let guild_id: u64 = self.guild_id.value();
        Addressed {
            inner: transport::guild_members(self.client, guild_id),
            route: Ghost(Route::GuildMemberList { guild_id }),
        }
    }

    /// Update a guild member.
    pub fn patch(&self, user_id: UserId) -> (r: Addressed<UpdateGuildMember<'a>>)
        ensures
            r.route@ == (Route::GuildMemberPatch {
                guild_id: self.spec_guild_id()@,
                user_id: user_id@,
            }),
    {
        let guild_id: u64 = self.guild_id.value();
        let user_id: u64 = user_id.value();
        Addressed {
            inner: transport::update_guild_member(self.client, guild_id, user_id),
            route: Ghost(Route::GuildMemberPatch { guild_id, user_id }),
        }
    }

    /// Add a member to a guild.
    pub fn post(&self, user_id: UserId, access_token: &'a str) -> (r: Addressed<AddGuildMember<'a>>)
        ensures
            r.route@ == (Route::GuildMemberPost {
                guild_id: self.spec_guild_id()@,
                user_id: user_id@,
                access_token: access_token@,
            }),
    {
        let guild_id: u64 = self.guild_id.value();
        let user_id: u64 = user_id.value();
        Addressed {
            inner: transport::add_guild_member(self.client, guild_id, user_id, access_token),
            route: Ghost(Route::GuildMemberPost {
                guild_id,
                user_id,
                access_token: access_token@,
            }),
        }
    }
}

/// RPC calls.
impl<'a> GuildMemberResource<'a> {
    /// Search a guild's members.
    pub fn search(&self, query: &'a str) -> (r: Addressed<SearchGuildMembers<'a>>)
        ensures
            r.route@ == (Route::GuildMemberSearch {
                guild_id: self.spec_guild_id()@,
                query: query@,
            }),
    {
        let guild_id: u64 = self.guild_id.value();
        Addressed {
            inner: transport::search_guild_members(self.client, guild_id, query),
            route: Ghost(Route::GuildMemberSearch { guild_id, query: query@ }),
        }
    }
}

/// 1:M guild member relationships.
impl<'a> GuildMemberResource<'a> {
    /// Work with a guild member's roles.
    pub fn roles(&self, user_id: UserId) -> (r: GuildMemberRoleResource<'a>)
        ensures
            r.spec_client() == self.spec_client(),
            r.spec_guild_id() == self.spec_guild_id(),
            r.spec_user_id() == user_id,
            r.tuple() == self.tuple().push(user_id@),
    {
        GuildMemberRoleResource::new(self.client, self.guild_id, user_id)
    }

    /// Work with the current user guild member's nickname.
    pub fn nickname(&self) -> (r: GuildMemberNicknameResource<'a>)
        ensures
            r.spec_client() == self.spec_client(),
            r.spec_guild_id() == self.spec_guild_id(),
            r.tuple() == self.tuple(),
    {
        GuildMemberNicknameResource::new(self.client, self.guild_id)
    }
}

} // verus!
