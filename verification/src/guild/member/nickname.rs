//! Work with the current user guild member's nickname.

use vstd::prelude::*;

use crate::id::GuildId;
use crate::route::{Addressed, Route};
use crate::transport;
use crate::validation::{valid_nickname, ValidationFault};
use twilight_http::client::Client;
use twilight_http::request::guild::UpdateCurrentMember;

verus! {

/// Work with the current user guild member's nickname.
#[derive(Clone, Copy, Debug)]
pub struct GuildMemberNicknameResource<'a> {
    client: &'a Client,
    guild_id: GuildId,
}

impl<'a> GuildMemberNicknameResource<'a> {
    /// The transport handle this node was built over.
    pub closed spec fn spec_client(&self) -> &'a Client {
        self.client
    }

    /// The guild identifier bound at this node.
    pub closed spec fn spec_guild_id(&self) -> GuildId {
        self.guild_id
    }

    /// The identifiers addressing this node.
    pub open spec fn tuple(&self) -> Seq<u64> {
        seq![self.spec_guild_id()@]
    }

    /// Create a resource instance to work with a guild member's nickname.
    pub fn new(client: &'a Client, guild_id: GuildId) -> (r: Self)
        ensures
            r.spec_client() == client,
            r.spec_guild_id() == guild_id,
    {
        GuildMemberNicknameResource { client, guild_id }
    }

    /// The guild identifier bound at this node.
    pub fn guild_id(&self) -> (r: GuildId)
        ensures
            r == self.spec_guild_id(),
    {
        self.guild_id
    }

    /// Update the current user guild member's nickname.
    ///
    /// # Errors
    ///
    /// Returns [`ValidationFault::Nickname`] if the nickname is not valid.
    pub fn patch(&self, nick: &'a str) -> (r: Result<Addressed<UpdateCurrentMember<'a>>, ValidationFault>)
        ensures
            r is Ok <==> valid_nickname(nick@),
            r matches Ok(a) ==> a.route@ == (Route::GuildMemberNicknamePatch {
                guild_id: self.spec_guild_id()@,
                nick: nick@,
            }),
            r matches Err(e) ==> e == ValidationFault::Nickname,
    {
        let guild_id: u64 = self.guild_id.value();
        let builder = transport::update_current_member(self.client, guild_id);
        match transport::update_current_member_nick(builder, nick) {
            Ok(builder) => Ok(
                Addressed {
                    inner: builder,
                    route: Ghost(Route::GuildMemberNicknamePatch {
                        guild_id,
                        nick: nick@,
                    }),
                },
            ),
            Err(_) => Err(ValidationFault::Nickname),
        }
    }
}

} // verus!
