//! Ghost description of where a request builder is addressed.
//!
//! The transport's request builders are opaque, so the address of a built
//! request — which operation, on which resource, with which identifiers and
//! payload — is recorded at specification level: every leaf operation
//! returns an [`Addressed`] value whose ghost [`Route`] its contract pins
//! down exactly.

use vstd::prelude::*;

use twilight_http::request::guild::update_guild_channel_positions::Position;
use twilight_model::http::permission_overwrite::PermissionOverwrite;
use twilight_model::id::marker::MessageMarker;
use twilight_model::id::Id;

verus! {

/// One remote operation together with the identifiers and plain arguments
/// that address it.
///
/// Variants are named after the position in the resource hierarchy followed
/// by the operation, and carry exactly the path identifiers of the node
/// that issued the operation plus its directly supplied arguments.
pub enum Route {
    /// Delete a channel.
    ChannelDelete { channel_id: u64 },
    /// Get a channel.
    ChannelGet { channel_id: u64 },
    /// Update a channel.
    ChannelPatch { channel_id: u64 },
    /// Follow a news channel.
    ChannelFollow { channel_id: u64, webhook_channel_id: u64 },
    /// Trigger a typing indicator in a channel.
    ChannelTyping { channel_id: u64 },
    /// List a channel's invites.
    ChannelInviteList { channel_id: u64 },
    /// Create a channel invite.
    ChannelInvitePost { channel_id: u64 },
    /// Delete multiple channel messages.
    ChannelMessageDeleteList { channel_id: u64, message_ids: Seq<Id<MessageMarker>> },
    /// Delete a channel message.
    ChannelMessageDelete { channel_id: u64, message_id: u64 },
    /// Get a channel message.
    ChannelMessageGet { channel_id: u64, message_id: u64 },
    /// List a channel's messages.
    ChannelMessageList { channel_id: u64 },
    /// Update a channel message.
    ChannelMessagePatch { channel_id: u64, message_id: u64 },
    /// Create a channel message.
    ChannelMessagePost { channel_id: u64 },
    /// Crosspost a channel message.
    ChannelMessageCrosspost { channel_id: u64, message_id: u64 },
    /// Delete all reactions on a channel message.
    ChannelMessageReactionDeleteList { channel_id: u64, message_id: u64 },
    /// List a channel message's reactions to one emoji. The emoji argument
    /// is handed to the transport alongside these identifiers.
    ChannelMessageReactionList { channel_id: u64, message_id: u64 },
    /// Delete a channel's permission overwrites.
    ChannelPermissionOverwriteDelete { channel_id: u64 },
    /// Put a channel permission overwrite.
    ChannelPermissionOverwritePut { channel_id: u64, overwrite: PermissionOverwrite },
    /// Delete a channel pin.
    ChannelPinDelete { channel_id: u64, message_id: u64 },
    /// List a channel's pins.
    ChannelPinList { channel_id: u64 },
    /// Create a channel pin.
    ChannelPinPost { channel_id: u64, message_id: u64 },
    /// List a channel's webhooks.
    ChannelWebhookList { channel_id: u64 },
    /// Create a channel webhook.
    ChannelWebhookPost { channel_id: u64, name: Seq<char> },
    /// Get a gateway.
    GatewayGet,
    /// Delete a guild.
    GuildDelete { guild_id: u64 },
    /// Get a guild.
    GuildGet { guild_id: u64 },
    /// Update a guild.
    GuildPatch { guild_id: u64 },
    /// Create a guild.
    GuildPost { name: Seq<char> },
    /// Create a guild from a template.
    GuildPostFromTemplate { template_code: Seq<char>, name: Seq<char> },
    /// Get a guild's audit log entries.
    GuildAuditLogList { guild_id: u64 },
    /// Delete a guild ban.
    GuildBanDelete { guild_id: u64, user_id: u64 },
    /// Get a guild ban.
    GuildBanGet { guild_id: u64, user_id: u64 },
    /// List a guild's bans.
    GuildBanList { guild_id: u64 },
    /// Create a guild ban.
    GuildBanPost { guild_id: u64, user_id: u64 },
    /// List a guild's channels.
    GuildChannelList { guild_id: u64 },
    /// Update the positions of all of a guild's channels.
    GuildChannelPatchList { guild_id: u64, positions: Seq<Position> },
    /// Create a guild channel.
    GuildChannelPost { guild_id: u64, name: Seq<char> },
    /// Delete a guild emoji.
    GuildEmojiDelete { guild_id: u64, emoji_id: u64 },
    /// Get a guild emoji.
    GuildEmojiGet { guild_id: u64, emoji_id: u64 },
    /// List a guild's emojis.
    GuildEmojiList { guild_id: u64 },
    /// Update a guild emoji.
    GuildEmojiPatch { guild_id: u64, emoji_id: u64 },
    /// Create a guild emoji.
    GuildEmojiPost { guild_id: u64, name: Seq<char>, image: Seq<u8> },
    /// Delete a guild's integration.
    GuildIntegrationDelete { guild_id: u64, integration_id: u64 },
    /// List a guild's integrations.
    GuildIntegrationList { guild_id: u64 },
    /// List a guild's invites.
    GuildInviteList { guild_id: u64 },
    /// Remove a member from a guild.
    GuildMemberDelete { guild_id: u64, user_id: u64 },
    /// Get a guild member.
    GuildMemberGet { guild_id: u64, user_id: u64 },
    /// List a guild's members.
    GuildMemberList { guild_id: u64 },
    /// Update a guild member.
    GuildMemberPatch { guild_id: u64, user_id: u64 },
    /// Add a member to a guild.
    GuildMemberPost { guild_id: u64, user_id: u64, access_token: Seq<char> },
    /// Search a guild's members.
    GuildMemberSearch { guild_id: u64, query: Seq<char> },
    /// Update the current user guild member's nickname.
    GuildMemberNicknamePatch { guild_id: u64, nick: Seq<char> },
    /// Remove a role from a guild member.
    GuildMemberRoleDelete { guild_id: u64, user_id: u64, role_id: u64 },
    /// Add a role to a guild member.
    GuildMemberRolePut { guild_id: u64, user_id: u64, role_id: u64 },
    /// Get a guild's preview.
    GuildPreviewGet { guild_id: u64 },
    /// Get a guild's prune information.
    GuildPruneGet { guild_id: u64 },
    /// Begin a guild prune.
    GuildPrunePost { guild_id: u64 },
    /// Delete a guild's role.
    GuildRoleDelete { guild_id: u64, role_id: u64 },
    /// List a guild's roles.
    GuildRoleList { guild_id: u64 },
    /// Update a guild's role.
    GuildRolePatch { guild_id: u64, role_id: u64 },
    /// Create a guild role.
    GuildRolePost { guild_id: u64 },
    /// Delete a guild's template.
    GuildTemplateDelete { guild_id: u64, code: Seq<char> },
    /// List a guild's templates.
    GuildTemplateList { guild_id: u64 },
    /// Update a guild template.
    GuildTemplatePatch { guild_id: u64, template_code: Seq<char> },
    /// Create a guild template.
    GuildTemplatePost { guild_id: u64, name: Seq<char> },
    /// Sync a guild's template.
    GuildTemplateSync { guild_id: u64, code: Seq<char> },
    /// Get a guild's vanity URL.
    GuildVanityUrlGet { guild_id: u64 },
    /// List a guild's voice regions.
    GuildVoiceRegionList { guild_id: u64 },
    /// Update a guild member's voice state.
    GuildVoiceStatePatch { guild_id: u64, user_id: u64, channel_id: u64 },
    /// Update the current user's voice state in a guild.
    GuildVoiceStatePatchCurrentUser { guild_id: u64, channel_id: u64 },
    /// List a guild's webhooks.
    GuildWebhookList { guild_id: u64 },
    /// Get a guild's welcome screen.
    GuildWelcomeScreenGet { guild_id: u64 },
    /// Update a guild's welcome screen.
    GuildWelcomeScreenPatch { guild_id: u64 },
    /// Get a guild's widget.
    GuildWidgetGet { guild_id: u64 },
    /// Update a guild's widget.
    GuildWidgetPatch { guild_id: u64 },
    /// Get an invite.
    InviteGet { code: Seq<char> },
    /// Get a template.
    TemplateGet { template_code: Seq<char> },
    /// Get a user.
    UserGet { user_id: u64 },
    /// Get the current user.
    UserMeGet,
    /// Update the current user.
    UserMePatch,
    /// List the current user's connections.
    UserMeConnectionList,
    /// Leave one of the current user's guilds.
    UserMeGuildDelete { guild_id: u64 },
    /// List the current user's guilds.
    UserMeGuildList,
    /// Create a private channel with a user.
    UserPrivateChannelPost { user_id: u64 },
    /// List the voice regions.
    VoiceRegionList,
    /// Delete a webhook.
    WebhookDelete { webhook_id: u64 },
    /// Get a webhook.
    WebhookGet { webhook_id: u64 },
    /// Update a webhook.
    WebhookPatch { webhook_id: u64 },
    /// Update a webhook with a token.
    WebhookPatchWithToken { webhook_id: u64, token: Seq<char> },
    /// Delete a webhook message.
    WebhookMessageDelete { webhook_id: u64, token: Seq<char>, message_id: u64 },
    /// Update a webhook message.
    WebhookMessagePatch { webhook_id: u64, token: Seq<char>, message_id: u64 },
    /// Create a webhook message.
    WebhookMessagePost { webhook_id: u64, token: Seq<char> },
}

/// A request builder paired with the ghost route it is addressed to.
///
/// The builder itself is owned by the transport layer and opaque here; the
/// route records, in specification, the operation and identifiers the
/// builder was constructed for.
pub struct Addressed<B> {
    /// The transport's request builder, ready to be executed by the caller.
    pub inner: B,
    /// The operation and identifiers the builder is addressed to.
    pub route: Ghost<Route>,
}

impl<B> Addressed<B> {
    /// Hand the underlying request builder to the caller.
    pub fn into_inner(self) -> (r: B)
        ensures
            r == self.inner,
    {
        self.inner
    }
}

} // verus!
