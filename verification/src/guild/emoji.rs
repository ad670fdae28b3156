//! Work with a guild's emojis.

use vstd::prelude::*;

use crate::id::{EmojiId, GuildId};
use crate::route::{Addressed, Route};
use crate::transport;
use twilight_http::client::Client;
use twilight_http::request::guild::emoji::{
    CreateEmoji, DeleteEmoji, GetEmoji, GetEmojis, UpdateEmoji,
};

verus! {

/// Work with a guild's emojis.
#[derive(Clone, Copy, Debug)]
pub struct GuildEmojiResource<'a> {
    client: &'a Client,
    guild_id: GuildId,
}

impl<'a> GuildEmojiResource<'a> {
    /// The transport handle this node was built over.
    pub closed spec fn spec_client(&self) -> &'a Client {
        self.client
    }

    /// The guild identifier bound at this node.
    pub closed spec fn spec_guild_id(&self) -> GuildId {
        self.guild_id
    }

    /// The identifiers addressing this node.
    pub open spec fn tuple(&self) -> Seq<u64> {
        seq![self.spec_guild_id()@]
    }

    /// Create a resource instance to work with a guild's emojis.
    pub fn new(client: &'a Client, guild_id: GuildId) -> (r: Self)
        ensures
            r.spec_client() == client,
            r.spec_guild_id() == guild_id,
    {
        GuildEmojiResource { client, guild_id }
    }

    /// The guild identifier bound at this node.
    pub fn guild_id(&self) -> (r: GuildId)
        ensures
            r == self.spec_guild_id(),
    {
        self.guild_id
    }

    /// Delete a guild emoji.
    pub fn delete(&self, emoji_id: EmojiId) -> (r: Addressed<DeleteEmoji<'a>>)
        ensures
            r.route@ == (Route::GuildEmojiDelete {
                guild_id: self.spec_guild_id()@,
                emoji_id: emoji_id@,
            }),
    {
        let guild_id: u64 = self.guild_id.value();
        let emoji_id: u64 = emoji_id.value();
        Addressed {
            inner: transport::delete_emoji(self.client, guild_id, emoji_id),
            route: Ghost(Route::GuildEmojiDelete { guild_id, emoji_id }),
        }
    }

    /// Get a guild emoji.
    pub fn get(&self, emoji_id: EmojiId) -> (r: Addressed<GetEmoji<'a>>)
        ensures
            r.route@ == (Route::GuildEmojiGet {
                guild_id: self.spec_guild_id()@,
                emoji_id: emoji_id@,
            }),
    {
        let guild_id: u64 = self.guild_id.value();
        let emoji_id: u64 = emoji_id.value();
        Addressed {
            inner: transport::emoji(self.client, guild_id, emoji_id),
            route: Ghost(Route::GuildEmojiGet { guild_id, emoji_id }),
        }
    }

    /// List a guild's emojis.
    pub fn list(&self) -> (r: Addressed<GetEmojis<'a>>)
        ensures
            r.route@ == (Route::GuildEmojiList { guild_id: self.spec_guild_id()@ }),
    {
        let guild_id: u64 = self.guild_id.value();
        Addressed {
            inner: transport::emojis(self.client, guild_id),
            route: Ghost(Route::GuildEmojiList { guild_id }),
        }
    }

    /// Update a guild emoji.
    pub fn patch(&self, emoji_id: EmojiId) -> (r: Addressed<UpdateEmoji<'a>>)
        ensures
            r.route@ == (Route::GuildEmojiPatch {
                guild_id: self.spec_guild_id()@,
                emoji_id: emoji_id@,
            }),
    {
        let guild_id: u64 = self.guild_id.value();
        let emoji_id: u64 = emoji_id.value();
        Addressed {
            inner: transport::update_emoji(self.client, guild_id, emoji_id),
            route: Ghost(Route::GuildEmojiPatch { guild_id, emoji_id }),
        }
    }

    /// Create a guild emoji.
    pub fn post(&self, name: &'a str, image: &'a [u8]) -> (r: Addressed<CreateEmoji<'a>>)
        ensures
            r.route@ == (Route::GuildEmojiPost {
                guild_id: self.spec_guild_id()@,
                name: name@,
                image: image@,
            }),
    {
        let guild_id: u64 = self.guild_id.value();
        Addressed {
            inner: transport::create_emoji(self.client, guild_id, name, image),
            route: Ghost(Route::GuildEmojiPost { guild_id, name: name@, image: image@ }),
        }
    }
}

} // verus!
