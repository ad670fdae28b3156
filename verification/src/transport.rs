//! Trusted boundary to the `twilight-http` transport.
//!
//! Every call into the transport crate goes through exactly one wrapper in
//! this module. A wrapper converts the library's plain identifier values to
//! the transport's typed identifiers and makes a single client call; its doc
//! comment names the client function relied on. The transport's identifier
//! constructor panics on zero, so every wrapper taking an identifier
//! requires it nonzero.

use vstd::prelude::*;

use twilight_http::client::Client;
use twilight_http::request::channel::invite::{CreateInvite, GetChannelInvites, GetInvite};
use twilight_http::request::channel::message::{
    CreateMessage, CrosspostMessage, DeleteMessage, DeleteMessages, GetChannelMessages,
    GetMessage, UpdateMessage,
};
use twilight_http::request::channel::reaction::{
    DeleteAllReactions, GetReactions, RequestReactionType,
};
use twilight_http::request::channel::webhook::{
    CreateWebhook, DeleteWebhook, DeleteWebhookMessage, ExecuteWebhook, GetChannelWebhooks,
    GetWebhook, UpdateWebhook, UpdateWebhookMessage, UpdateWebhookWithToken,
};
use twilight_http::request::channel::{
    CreatePin, CreateTypingTrigger, DeleteChannel, DeleteChannelPermission, DeletePin,
    FollowNewsChannel, GetChannel, GetPins, UpdateChannel, UpdateChannelPermission,
};
use twilight_http::request::guild::ban::{CreateBan, DeleteBan, GetBan, GetBans};
use twilight_http::request::guild::create_guild::CreateGuildError;
use twilight_http::request::guild::emoji::{
    CreateEmoji, DeleteEmoji, GetEmoji, GetEmojis, UpdateEmoji,
};
use twilight_http::request::guild::integration::{
    DeleteGuildIntegration, GetGuildIntegrations,
};
use twilight_http::request::guild::member::{
    AddGuildMember, AddRoleToMember, GetGuildMembers, GetMember, RemoveMember,
    RemoveRoleFromMember, SearchGuildMembers, UpdateGuildMember,
};
use twilight_http::request::guild::role::{CreateRole, DeleteRole, GetGuildRoles, UpdateRole};
use twilight_http::request::guild::update_guild_channel_positions::Position;
use twilight_http::request::guild::user::{
    UpdateCurrentUserVoiceState, UpdateUserVoiceState,
};
use twilight_http::request::guild::{
    CreateGuild, CreateGuildChannel, CreateGuildPrune, DeleteGuild, GetAuditLog, GetGuild,
    GetGuildChannels, GetGuildInvites, GetGuildPreview, GetGuildPruneCount,
    GetGuildVanityUrl, GetGuildVoiceRegions, GetGuildWebhooks, GetGuildWelcomeScreen,
    GetGuildWidget, UpdateCurrentMember, UpdateGuild, UpdateGuildChannelPositions,
    UpdateGuildWelcomeScreen, UpdateGuildWidget,
};
use twilight_http::request::template::{
    CreateGuildFromTemplate, CreateTemplate, DeleteTemplate, GetTemplate, GetTemplates,
    SyncTemplate, UpdateTemplate,
};
use twilight_http::request::user::{
    CreatePrivateChannel, GetCurrentUser, GetCurrentUserConnections, GetCurrentUserGuilds,
    GetUser, LeaveGuild, UpdateCurrentUser,
};
use twilight_http::request::{GetGateway, GetVoiceRegions};
use twilight_model::http::permission_overwrite::PermissionOverwrite;
use twilight_model::id::marker::MessageMarker;
use twilight_model::id::Id;
use twilight_validate::channel::ChannelValidationError;
use twilight_validate::request::ValidationError;

verus! {

#[verifier::external_type_specification]
#[verifier::external_body]
pub struct ExClient(Client);

#[verifier::external_type_specification]
#[verifier::external_body]
pub struct ExValidationError(ValidationError);

#[verifier::external_type_specification]
#[verifier::external_body]
pub struct ExChannelValidationError(ChannelValidationError);

#[verifier::external_type_specification]
#[verifier::external_body]
pub struct ExCreateGuildError(CreateGuildError);

#[verifier::external_type_specification]
#[verifier::external_body]
pub struct ExPermissionOverwrite(PermissionOverwrite);

#[verifier::external_type_specification]
#[verifier::external_body]
pub struct ExPosition(Position);

#[verifier::external_type_specification]
#[verifier::external_body]
pub struct ExMessageMarker(MessageMarker);

#[verifier::external_type_specification]
#[verifier::external_body]
pub struct ExRequestReactionType<'a>(RequestReactionType<'a>);

#[verifier::external_type_specification]
#[verifier::external_body]
pub struct ExAddGuildMember<'a>(AddGuildMember<'a>);

#[verifier::external_type_specification]
#[verifier::external_body]
pub struct ExAddRoleToMember<'a>(AddRoleToMember<'a>);

#[verifier::external_type_specification]
#[verifier::external_body]
pub struct ExCreateBan<'a>(CreateBan<'a>);

#[verifier::external_type_specification]
#[verifier::external_body]
pub struct ExCreateEmoji<'a>(CreateEmoji<'a>);

#[verifier::external_type_specification]
#[verifier::external_body]
pub struct ExCreateGuild<'a>(CreateGuild<'a>);

#[verifier::external_type_specification]
#[verifier::external_body]
pub struct ExCreateGuildChannel<'a>(CreateGuildChannel<'a>);

#[verifier::external_type_specification]
#[verifier::external_body]
pub struct ExCreateGuildFromTemplate<'a>(CreateGuildFromTemplate<'a>);

#[verifier::external_type_specification]
#[verifier::external_body]
pub struct ExCreateGuildPrune<'a>(CreateGuildPrune<'a>);

#[verifier::external_type_specification]
#[verifier::external_body]
pub struct ExCreateInvite<'a>(CreateInvite<'a>);

#[verifier::external_type_specification]
#[verifier::external_body]
pub struct ExCreateMessage<'a>(CreateMessage<'a>);

#[verifier::external_type_specification]
#[verifier::external_body]
pub struct ExCreatePin<'a>(CreatePin<'a>);

#[verifier::external_type_specification]
#[verifier::external_body]
pub struct ExCreatePrivateChannel<'a>(CreatePrivateChannel<'a>);

#[verifier::external_type_specification]
#[verifier::external_body]
pub struct ExCreateRole<'a>(CreateRole<'a>);

#[verifier::external_type_specification]
#[verifier::external_body]
pub struct ExCreateTemplate<'a>(CreateTemplate<'a>);

#[verifier::external_type_specification]
#[verifier::external_body]
pub struct ExCreateTypingTrigger<'a>(CreateTypingTrigger<'a>);

#[verifier::external_type_specification]
#[verifier::external_body]
pub struct ExCreateWebhook<'a>(CreateWebhook<'a>);

#[verifier::external_type_specification]
#[verifier::external_body]
pub struct ExCrosspostMessage<'a>(CrosspostMessage<'a>);

#[verifier::external_type_specification]
#[verifier::external_body]
pub struct ExDeleteAllReactions<'a>(DeleteAllReactions<'a>);

#[verifier::external_type_specification]
#[verifier::external_body]
pub struct ExDeleteBan<'a>(DeleteBan<'a>);

#[verifier::external_type_specification]
#[verifier::external_body]
pub struct ExDeleteChannel<'a>(DeleteChannel<'a>);

#[verifier::external_type_specification]
#[verifier::external_body]
pub struct ExDeleteChannelPermission<'a>(DeleteChannelPermission<'a>);

#[verifier::external_type_specification]
#[verifier::external_body]
pub struct ExDeleteEmoji<'a>(DeleteEmoji<'a>);

#[verifier::external_type_specification]
#[verifier::external_body]
pub struct ExDeleteGuild<'a>(DeleteGuild<'a>);

#[verifier::external_type_specification]
#[verifier::external_body]
pub struct ExDeleteGuildIntegration<'a>(DeleteGuildIntegration<'a>);

#[verifier::external_type_specification]
#[verifier::external_body]
pub struct ExDeleteMessage<'a>(DeleteMessage<'a>);

#[verifier::external_type_specification]
#[verifier::external_body]
pub struct ExDeleteMessages<'a>(DeleteMessages<'a>);

#[verifier::external_type_specification]
#[verifier::external_body]
pub struct ExDeletePin<'a>(DeletePin<'a>);

#[verifier::external_type_specification]
#[verifier::external_body]
pub struct ExDeleteRole<'a>(DeleteRole<'a>);

#[verifier::external_type_specification]
#[verifier::external_body]
pub struct ExDeleteTemplate<'a>(DeleteTemplate<'a>);

#[verifier::external_type_specification]
#[verifier::external_body]
pub struct ExDeleteWebhook<'a>(DeleteWebhook<'a>);

#[verifier::external_type_specification]
#[verifier::external_body]
pub struct ExDeleteWebhookMessage<'a>(DeleteWebhookMessage<'a>);

#[verifier::external_type_specification]
#[verifier::external_body]
pub struct ExExecuteWebhook<'a>(ExecuteWebhook<'a>);

#[verifier::external_type_specification]
#[verifier::external_body]
pub struct ExFollowNewsChannel<'a>(FollowNewsChannel<'a>);

#[verifier::external_type_specification]
#[verifier::external_body]
pub struct ExGetAuditLog<'a>(GetAuditLog<'a>);

#[verifier::external_type_specification]
#[verifier::external_body]
pub struct ExGetBan<'a>(GetBan<'a>);

#[verifier::external_type_specification]
#[verifier::external_body]
pub struct ExGetBans<'a>(GetBans<'a>);

#[verifier::external_type_specification]
#[verifier::external_body]
pub struct ExGetChannel<'a>(GetChannel<'a>);

#[verifier::external_type_specification]
#[verifier::external_body]
pub struct ExGetChannelInvites<'a>(GetChannelInvites<'a>);

#[verifier::external_type_specification]
#[verifier::external_body]
pub struct ExGetChannelMessages<'a>(GetChannelMessages<'a>);

#[verifier::external_type_specification]
#[verifier::external_body]
pub struct ExGetChannelWebhooks<'a>(GetChannelWebhooks<'a>);

#[verifier::external_type_specification]
#[verifier::external_body]
pub struct ExGetCurrentUser<'a>(GetCurrentUser<'a>);

#[verifier::external_type_specification]
#[verifier::external_body]
pub struct ExGetCurrentUserConnections<'a>(GetCurrentUserConnections<'a>);

#[verifier::external_type_specification]
#[verifier::external_body]
pub struct ExGetCurrentUserGuilds<'a>(GetCurrentUserGuilds<'a>);

#[verifier::external_type_specification]
#[verifier::external_body]
pub struct ExGetEmoji<'a>(GetEmoji<'a>);

#[verifier::external_type_specification]
#[verifier::external_body]
pub struct ExGetEmojis<'a>(GetEmojis<'a>);

#[verifier::external_type_specification]
#[verifier::external_body]
pub struct ExGetGateway<'a>(GetGateway<'a>);

#[verifier::external_type_specification]
#[verifier::external_body]
pub struct ExGetGuild<'a>(GetGuild<'a>);

#[verifier::external_type_specification]
#[verifier::external_body]
pub struct ExGetGuildChannels<'a>(GetGuildChannels<'a>);

#[verifier::external_type_specification]
#[verifier::external_body]
pub struct ExGetGuildIntegrations<'a>(GetGuildIntegrations<'a>);

#[verifier::external_type_specification]
#[verifier::external_body]
pub struct ExGetGuildInvites<'a>(GetGuildInvites<'a>);

#[verifier::external_type_specification]
#[verifier::external_body]
pub struct ExGetGuildMembers<'a>(GetGuildMembers<'a>);

#[verifier::external_type_specification]
#[verifier::external_body]
pub struct ExGetGuildPreview<'a>(GetGuildPreview<'a>);

#[verifier::external_type_specification]
#[verifier::external_body]
pub struct ExGetGuildPruneCount<'a>(GetGuildPruneCount<'a>);

#[verifier::external_type_specification]
#[verifier::external_body]
pub struct ExGetGuildRoles<'a>(GetGuildRoles<'a>);

#[verifier::external_type_specification]
#[verifier::external_body]
pub struct ExGetGuildVanityUrl<'a>(GetGuildVanityUrl<'a>);

#[verifier::external_type_specification]
#[verifier::external_body]
pub struct ExGetGuildVoiceRegions<'a>(GetGuildVoiceRegions<'a>);

#[verifier::external_type_specification]
#[verifier::external_body]
pub struct ExGetGuildWebhooks<'a>(GetGuildWebhooks<'a>);

#[verifier::external_type_specification]
#[verifier::external_body]
pub struct ExGetGuildWelcomeScreen<'a>(GetGuildWelcomeScreen<'a>);

#[verifier::external_type_specification]
#[verifier::external_body]
pub struct ExGetGuildWidget<'a>(GetGuildWidget<'a>);

#[verifier::external_type_specification]
#[verifier::external_body]
pub struct ExGetInvite<'a>(GetInvite<'a>);

#[verifier::external_type_specification]
#[verifier::external_body]
pub struct ExGetMember<'a>(GetMember<'a>);

#[verifier::external_type_specification]
#[verifier::external_body]
pub struct ExGetMessage<'a>(GetMessage<'a>);

#[verifier::external_type_specification]
#[verifier::external_body]
pub struct ExGetPins<'a>(GetPins<'a>);

#[verifier::external_type_specification]
#[verifier::external_body]
pub struct ExGetReactions<'a>(GetReactions<'a>);

#[verifier::external_type_specification]
#[verifier::external_body]
pub struct ExGetTemplate<'a>(GetTemplate<'a>);

#[verifier::external_type_specification]
#[verifier::external_body]
pub struct ExGetTemplates<'a>(GetTemplates<'a>);

#[verifier::external_type_specification]
#[verifier::external_body]
pub struct ExGetUser<'a>(GetUser<'a>);

#[verifier::external_type_specification]
#[verifier::external_body]
pub struct ExGetVoiceRegions<'a>(GetVoiceRegions<'a>);

#[verifier::external_type_specification]
#[verifier::external_body]
pub struct ExGetWebhook<'a>(GetWebhook<'a>);

#[verifier::external_type_specification]
#[verifier::external_body]
pub struct ExLeaveGuild<'a>(LeaveGuild<'a>);

#[verifier::external_type_specification]
#[verifier::external_body]
pub struct ExRemoveMember<'a>(RemoveMember<'a>);

#[verifier::external_type_specification]
#[verifier::external_body]
pub struct ExRemoveRoleFromMember<'a>(RemoveRoleFromMember<'a>);

#[verifier::external_type_specification]
#[verifier::external_body]
pub struct ExSearchGuildMembers<'a>(SearchGuildMembers<'a>);

#[verifier::external_type_specification]
#[verifier::external_body]
pub struct ExSyncTemplate<'a>(SyncTemplate<'a>);

#[verifier::external_type_specification]
#[verifier::external_body]
pub struct ExUpdateChannel<'a>(UpdateChannel<'a>);

#[verifier::external_type_specification]
#[verifier::external_body]
pub struct ExUpdateChannelPermission<'a>(UpdateChannelPermission<'a>);

#[verifier::external_type_specification]
#[verifier::external_body]
pub struct ExUpdateCurrentMember<'a>(UpdateCurrentMember<'a>);

#[verifier::external_type_specification]
#[verifier::external_body]
pub struct ExUpdateCurrentUser<'a>(UpdateCurrentUser<'a>);

#[verifier::external_type_specification]
#[verifier::external_body]
pub struct ExUpdateCurrentUserVoiceState<'a>(UpdateCurrentUserVoiceState<'a>);

#[verifier::external_type_specification]
#[verifier::external_body]
pub struct ExUpdateEmoji<'a>(UpdateEmoji<'a>);

#[verifier::external_type_specification]
#[verifier::external_body]
pub struct ExUpdateGuild<'a>(UpdateGuild<'a>);

#[verifier::external_type_specification]
#[verifier::external_body]
pub struct ExUpdateGuildChannelPositions<'a>(UpdateGuildChannelPositions<'a>);

#[verifier::external_type_specification]
#[verifier::external_body]
pub struct ExUpdateGuildMember<'a>(UpdateGuildMember<'a>);

#[verifier::external_type_specification]
#[verifier::external_body]
pub struct ExUpdateGuildWelcomeScreen<'a>(UpdateGuildWelcomeScreen<'a>);

#[verifier::external_type_specification]
#[verifier::external_body]
pub struct ExUpdateGuildWidget<'a>(UpdateGuildWidget<'a>);

#[verifier::external_type_specification]
#[verifier::external_body]
pub struct ExUpdateMessage<'a>(UpdateMessage<'a>);

#[verifier::external_type_specification]
#[verifier::external_body]
pub struct ExUpdateRole<'a>(UpdateRole<'a>);

#[verifier::external_type_specification]
#[verifier::external_body]
pub struct ExUpdateTemplate<'a>(UpdateTemplate<'a>);

#[verifier::external_type_specification]
#[verifier::external_body]
pub struct ExUpdateUserVoiceState<'a>(UpdateUserVoiceState<'a>);

#[verifier::external_type_specification]
#[verifier::external_body]
pub struct ExUpdateWebhook<'a>(UpdateWebhook<'a>);

#[verifier::external_type_specification]
#[verifier::external_body]
pub struct ExUpdateWebhookMessage<'a>(UpdateWebhookMessage<'a>);

#[verifier::external_type_specification]
#[verifier::external_body]
pub struct ExUpdateWebhookWithToken<'a>(UpdateWebhookWithToken<'a>);

#[verifier::external_type_specification]
#[verifier::external_body]
#[verifier::reject_recursive_types(T)]
pub struct ExId<T>(Id<T>);

/// Relies on `Client::delete_channel`: builds the request to delete a channel.
#[verifier::external_body]
pub(crate) fn delete_channel<'a>(client: &'a Client, channel_id: u64) -> DeleteChannel<'a>
    requires
        channel_id != 0,
{
    client.delete_channel(Id::new(channel_id))
}

/// Relies on `Client::channel`: builds the request to get a channel.
#[verifier::external_body]
pub(crate) fn channel<'a>(client: &'a Client, channel_id: u64) -> GetChannel<'a>
    requires
        channel_id != 0,
{
    client.channel(Id::new(channel_id))
}

/// Relies on `Client::update_channel`: builds the request to update a channel.
#[verifier::external_body]
pub(crate) fn update_channel<'a>(client: &'a Client, channel_id: u64) -> UpdateChannel<'a>
    requires
        channel_id != 0,
{
    client.update_channel(Id::new(channel_id))
}

/// Relies on `Client::follow_news_channel`: builds the request to follow a news channel.
#[verifier::external_body]
pub(crate) fn follow_news_channel<'a>(
    client: &'a Client,
    channel_id: u64,
    webhook_channel_id: u64,
) -> FollowNewsChannel<'a>
    requires
        channel_id != 0,
        webhook_channel_id != 0,
{
    client.follow_news_channel(Id::new(channel_id), Id::new(webhook_channel_id))
}

/// Relies on `Client::create_typing_trigger`: builds the request to trigger a typing indicator in a channel.
#[verifier::external_body]
pub(crate) fn create_typing_trigger<'a>(
    client: &'a Client,
    channel_id: u64,
) -> CreateTypingTrigger<'a>
    requires
        channel_id != 0,
{
    client.create_typing_trigger(Id::new(channel_id))
}

/// Relies on `Client::channel_invites`: builds the request to list a channel's invites.
#[verifier::external_body]
pub(crate) fn channel_invites<'a>(client: &'a Client, channel_id: u64) -> GetChannelInvites<'a>
    requires
        channel_id != 0,
{
    client.channel_invites(Id::new(channel_id))
}

/// Relies on `Client::create_invite`: builds the request to create a channel invite.
#[verifier::external_body]
pub(crate) fn create_invite<'a>(client: &'a Client, channel_id: u64) -> CreateInvite<'a>
    requires
        channel_id != 0,
{
    client.create_invite(Id::new(channel_id))
}

/// Relies on `Client::delete_messages`: builds the request to delete multiple channel messages.
#[verifier::external_body]
pub(crate) fn delete_messages<'a>(
    client: &'a Client,
    channel_id: u64,
    message_ids: &'a [Id<MessageMarker>],
) -> DeleteMessages<'a>
    requires
        channel_id != 0,
{
    client.delete_messages(Id::new(channel_id), message_ids)
}

/// Relies on `Client::delete_message`: builds the request to delete a channel message.
#[verifier::external_body]
pub(crate) fn delete_message<'a>(
    client: &'a Client,
    channel_id: u64,
    message_id: u64,
) -> DeleteMessage<'a>
    requires
        channel_id != 0,
        message_id != 0,
{
    client.delete_message(Id::new(channel_id), Id::new(message_id))
}

/// Relies on `Client::message`: builds the request to get a channel message.
#[verifier::external_body]
pub(crate) fn message<'a>(client: &'a Client, channel_id: u64, message_id: u64) -> GetMessage<'a>
    requires
        channel_id != 0,
        message_id != 0,
{
    client.message(Id::new(channel_id), Id::new(message_id))
}

/// Relies on `Client::channel_messages`: builds the request to list a channel's messages.
#[verifier::external_body]
pub(crate) fn channel_messages<'a>(client: &'a Client, channel_id: u64) -> GetChannelMessages<'a>
    requires
        channel_id != 0,
{
    client.channel_messages(Id::new(channel_id))
}

/// Relies on `Client::update_message`: builds the request to update a channel message.
#[verifier::external_body]
pub(crate) fn update_message<'a>(
    client: &'a Client,
    channel_id: u64,
    message_id: u64,
) -> UpdateMessage<'a>
    requires
        channel_id != 0,
        message_id != 0,
{
    client.update_message(Id::new(channel_id), Id::new(message_id))
}

/// Relies on `Client::create_message`: builds the request to create a channel message.
#[verifier::external_body]
pub(crate) fn create_message<'a>(client: &'a Client, channel_id: u64) -> CreateMessage<'a>
    requires
        channel_id != 0,
{
    client.create_message(Id::new(channel_id))
}

/// Relies on `Client::crosspost_message`: builds the request to crosspost a channel message.
#[verifier::external_body]
pub(crate) fn crosspost_message<'a>(
    client: &'a Client,
    channel_id: u64,
    message_id: u64,
) -> CrosspostMessage<'a>
    requires
        channel_id != 0,
        message_id != 0,
{
    client.crosspost_message(Id::new(channel_id), Id::new(message_id))
}

/// Relies on `Client::delete_all_reactions`: builds the request to delete all reactions on a channel message.
#[verifier::external_body]
pub(crate) fn delete_all_reactions<'a>(
    client: &'a Client,
    channel_id: u64,
    message_id: u64,
) -> DeleteAllReactions<'a>
    requires
        channel_id != 0,
        message_id != 0,
{
    client.delete_all_reactions(Id::new(channel_id), Id::new(message_id))
}

/// Relies on `Client::reactions`: builds the request to list a channel message's reactions to one emoji.
#[verifier::external_body]
pub(crate) fn reactions<'a>(
    client: &'a Client,
    channel_id: u64,
    message_id: u64,
    emoji: &'a RequestReactionType<'a>,
) -> GetReactions<'a>
    requires
        channel_id != 0,
        message_id != 0,
{
    client.reactions(Id::new(channel_id), Id::new(message_id), emoji)
}

/// Relies on `Client::delete_channel_permission`: builds the request to delete a channel's permission overwrites.
#[verifier::external_body]
pub(crate) fn delete_channel_permission<'a>(
    client: &'a Client,
    channel_id: u64,
) -> DeleteChannelPermission<'a>
    requires
        channel_id != 0,
{
    client.delete_channel_permission(Id::new(channel_id))
}

/// Relies on `Client::update_channel_permission`: builds the request to put a channel permission overwrite.
#[verifier::external_body]
pub(crate) fn update_channel_permission<'a>(
    client: &'a Client,
    channel_id: u64,
    permission_overwrite: &PermissionOverwrite,
) -> UpdateChannelPermission<'a>
    requires
        channel_id != 0,
{
    client.update_channel_permission(Id::new(channel_id), permission_overwrite)
}

/// Relies on `Client::delete_pin`: builds the request to delete a channel pin.
#[verifier::external_body]
pub(crate) fn delete_pin<'a>(client: &'a Client, channel_id: u64, message_id: u64) -> DeletePin<'a>
    requires
        channel_id != 0,
        message_id != 0,
{
    client.delete_pin(Id::new(channel_id), Id::new(message_id))
}

/// Relies on `Client::pins`: builds the request to list a channel's pins.
#[verifier::external_body]
pub(crate) fn pins<'a>(client: &'a Client, channel_id: u64) -> GetPins<'a>
    requires
        channel_id != 0,
{
    client.pins(Id::new(channel_id))
}

/// Relies on `Client::create_pin`: builds the request to create a channel pin.
#[verifier::external_body]
pub(crate) fn create_pin<'a>(client: &'a Client, channel_id: u64, message_id: u64) -> CreatePin<'a>
    requires
        channel_id != 0,
        message_id != 0,
{
    client.create_pin(Id::new(channel_id), Id::new(message_id))
}

/// Relies on `Client::channel_webhooks`: builds the request to list a channel's webhooks.
#[verifier::external_body]
pub(crate) fn channel_webhooks<'a>(client: &'a Client, channel_id: u64) -> GetChannelWebhooks<'a>
    requires
        channel_id != 0,
{
    client.channel_webhooks(Id::new(channel_id))
}

/// Relies on `Client::create_webhook`: builds the request to create a channel webhook, and
/// succeeds exactly when `twilight_validate::request::webhook_username` accepts the
/// name: between 2 and 80 characters and not "clyde".
#[verifier::external_body]
pub(crate) fn create_webhook<'a>(client: &'a Client, channel_id: u64, name: &'a str) -> (r: Result<
    CreateWebhook<'a>,
    ValidationError,
>)
    requires
        channel_id != 0,
    ensures
        r is Ok <==> crate::validation::valid_webhook_name(name@),
{
    client.create_webhook(Id::new(channel_id), name)
}

/// Relies on `Client::gateway`: builds the request to get a gateway.
#[verifier::external_body]
pub(crate) fn gateway<'a>(client: &'a Client) -> GetGateway<'a>
{
    client.gateway()
}

/// Relies on `Client::delete_guild`: builds the request to delete a guild.
#[verifier::external_body]
pub(crate) fn delete_guild<'a>(client: &'a Client, guild_id: u64) -> DeleteGuild<'a>
    requires
        guild_id != 0,
{
    client.delete_guild(Id::new(guild_id))
}

/// Relies on `Client::guild`: builds the request to get a guild.
#[verifier::external_body]
pub(crate) fn guild<'a>(client: &'a Client, guild_id: u64) -> GetGuild<'a>
    requires
        guild_id != 0,
{
    client.guild(Id::new(guild_id))
}

/// Relies on `Client::update_guild`: builds the request to update a guild.
#[verifier::external_body]
pub(crate) fn update_guild<'a>(client: &'a Client, guild_id: u64) -> UpdateGuild<'a>
    requires
        guild_id != 0,
{
    client.update_guild(Id::new(guild_id))
}

/// Relies on `Client::create_guild`: builds the request to create a guild, and
/// succeeds exactly when `twilight_validate::request::guild_name` accepts the
/// name: between 2 and 100 characters.
#[verifier::external_body]
pub(crate) fn create_guild<'a>(client: &'a Client, name: String) -> (r: Result<
    CreateGuild<'a>,
    CreateGuildError,
>)
    ensures
        r is Ok <==> crate::validation::valid_guild_name(name@),
{
    client.create_guild(name)
}

/// Relies on `Client::create_guild_from_template`: builds the request to create a guild from a template, and
/// succeeds exactly when `twilight_validate::request::guild_name` accepts the
/// name: between 2 and 100 characters.
#[verifier::external_body]
pub(crate) fn create_guild_from_template<'a>(client: &'a Client, template_code: &'a str, name: &'a str) -> (r: Result<
    CreateGuildFromTemplate<'a>,
    ValidationError,
>)
    ensures
        r is Ok <==> crate::validation::valid_guild_name(name@),
{
    client.create_guild_from_template(template_code, name)
}

/// Relies on `Client::audit_log`: builds the request to get a guild's audit log entries.
#[verifier::external_body]
pub(crate) fn audit_log<'a>(client: &'a Client, guild_id: u64) -> GetAuditLog<'a>
    requires
        guild_id != 0,
{
    client.audit_log(Id::new(guild_id))
}

/// Relies on `Client::delete_ban`: builds the request to delete a guild ban.
#[verifier::external_body]
pub(crate) fn delete_ban<'a>(client: &'a Client, guild_id: u64, user_id: u64) -> DeleteBan<'a>
    requires
        guild_id != 0,
        user_id != 0,
{
    client.delete_ban(Id::new(guild_id), Id::new(user_id))
}

/// Relies on `Client::ban`: builds the request to get a guild ban.
#[verifier::external_body]
pub(crate) fn ban<'a>(client: &'a Client, guild_id: u64, user_id: u64) -> GetBan<'a>
    requires
        guild_id != 0,
        user_id != 0,
{
    client.ban(Id::new(guild_id), Id::new(user_id))
}

/// Relies on `Client::bans`: builds the request to list a guild's bans.
#[verifier::external_body]
pub(crate) fn bans<'a>(client: &'a Client, guild_id: u64) -> GetBans<'a>
    requires
        guild_id != 0,
{
    client.bans(Id::new(guild_id))
}

/// Relies on `Client::create_ban`: builds the request to create a guild ban.
#[verifier::external_body]
pub(crate) fn create_ban<'a>(client: &'a Client, guild_id: u64, user_id: u64) -> CreateBan<'a>
    requires
        guild_id != 0,
        user_id != 0,
{
    client.create_ban(Id::new(guild_id), Id::new(user_id))
}

/// Relies on `Client::guild_channels`: builds the request to list a guild's channels.
#[verifier::external_body]
pub(crate) fn guild_channels<'a>(client: &'a Client, guild_id: u64) -> GetGuildChannels<'a>
    requires
        guild_id != 0,
{
    client.guild_channels(Id::new(guild_id))
}

/// Relies on `Client::update_guild_channel_positions`: builds the request to update the positions of all of a guild's channels.
#[verifier::external_body]
pub(crate) fn update_guild_channel_positions<'a>(
    client: &'a Client,
    guild_id: u64,
    channels: &'a [Position],
) -> UpdateGuildChannelPositions<'a>
    requires
        guild_id != 0,
{
    client.update_guild_channel_positions(Id::new(guild_id), channels)
}

/// Relies on `Client::create_guild_channel`: builds the request to create a guild channel, and
/// succeeds exactly when `twilight_validate::channel::name` accepts the
/// name: between 1 and 100 characters.
#[verifier::external_body]
pub(crate) fn create_guild_channel<'a>(client: &'a Client, guild_id: u64, name: &'a str) -> (r: Result<
    CreateGuildChannel<'a>,
    ChannelValidationError,
>)
    requires
        guild_id != 0,
    ensures
        r is Ok <==> crate::validation::valid_channel_name(name@),
{
    client.create_guild_channel(Id::new(guild_id), name)
}

/// Relies on `Client::delete_emoji`: builds the request to delete a guild emoji.
#[verifier::external_body]
pub(crate) fn delete_emoji<'a>(client: &'a Client, guild_id: u64, emoji_id: u64) -> DeleteEmoji<'a>
    requires
        guild_id != 0,
        emoji_id != 0,
{
    client.delete_emoji(Id::new(guild_id), Id::new(emoji_id))
}

/// Relies on `Client::emoji`: builds the request to get a guild emoji.
#[verifier::external_body]
pub(crate) fn emoji<'a>(client: &'a Client, guild_id: u64, emoji_id: u64) -> GetEmoji<'a>
    requires
        guild_id != 0,
        emoji_id != 0,
{
    client.emoji(Id::new(guild_id), Id::new(emoji_id))
}

/// Relies on `Client::emojis`: builds the request to list a guild's emojis.
#[verifier::external_body]
pub(crate) fn emojis<'a>(client: &'a Client, guild_id: u64) -> GetEmojis<'a>
    requires
        guild_id != 0,
{
    client.emojis(Id::new(guild_id))
}

/// Relies on `Client::update_emoji`: builds the request to update a guild emoji.
#[verifier::external_body]
pub(crate) fn update_emoji<'a>(client: &'a Client, guild_id: u64, emoji_id: u64) -> UpdateEmoji<'a>
    requires
        guild_id != 0,
        emoji_id != 0,
{
    client.update_emoji(Id::new(guild_id), Id::new(emoji_id))
}

/// Relies on `Client::create_emoji`: builds the request to create a guild emoji.
#[verifier::external_body]
pub(crate) fn create_emoji<'a>(
    client: &'a Client,
    guild_id: u64,
    name: &'a str,
    image: &'a [u8],
) -> CreateEmoji<'a>
    requires
        guild_id != 0,
{
    client.create_emoji(Id::new(guild_id), name, image)
}

/// Relies on `Client::delete_guild_integration`: builds the request to delete a guild's integration.
#[verifier::external_body]
pub(crate) fn delete_guild_integration<'a>(
    client: &'a Client,
    guild_id: u64,
    integration_id: u64,
) -> DeleteGuildIntegration<'a>
    requires
        guild_id != 0,
        integration_id != 0,
{
    client.delete_guild_integration(Id::new(guild_id), Id::new(integration_id))
}

/// Relies on `Client::guild_integrations`: builds the request to list a guild's integrations.
#[verifier::external_body]
pub(crate) fn guild_integrations<'a>(client: &'a Client, guild_id: u64) -> GetGuildIntegrations<'a>
    requires
        guild_id != 0,
{
    client.guild_integrations(Id::new(guild_id))
}

/// Relies on `Client::guild_invites`: builds the request to list a guild's invites.
#[verifier::external_body]
pub(crate) fn guild_invites<'a>(client: &'a Client, guild_id: u64) -> GetGuildInvites<'a>
    requires
        guild_id != 0,
{
    client.guild_invites(Id::new(guild_id))
}

/// Relies on `Client::remove_guild_member`: builds the request to remove a member from a guild.
#[verifier::external_body]
pub(crate) fn remove_guild_member<'a>(
    client: &'a Client,
    guild_id: u64,
    user_id: u64,
) -> RemoveMember<'a>
    requires
        guild_id != 0,
        user_id != 0,
{
    client.remove_guild_member(Id::new(guild_id), Id::new(user_id))
}

/// Relies on `Client::guild_member`: builds the request to get a guild member.
#[verifier::external_body]
pub(crate) fn guild_member<'a>(client: &'a Client, guild_id: u64, user_id: u64) -> GetMember<'a>
    requires
        guild_id != 0,
        user_id != 0,
{
    client.guild_member(Id::new(guild_id), Id::new(user_id))
}

/// Relies on `Client::guild_members`: builds the request to list a guild's members.
#[verifier::external_body]
pub(crate) fn guild_members<'a>(client: &'a Client, guild_id: u64) -> GetGuildMembers<'a>
    requires
        guild_id != 0,
{
    client.guild_members(Id::new(guild_id))
}

/// Relies on `Client::update_guild_member`: builds the request to update a guild member.
#[verifier::external_body]
pub(crate) fn update_guild_member<'a>(
    client: &'a Client,
    guild_id: u64,
    user_id: u64,
) -> UpdateGuildMember<'a>
    requires
        guild_id != 0,
        user_id != 0,
{
    client.update_guild_member(Id::new(guild_id), Id::new(user_id))
}

/// Relies on `Client::add_guild_member`: builds the request to add a member to a guild.
#[verifier::external_body]
pub(crate) fn add_guild_member<'a>(
    client: &'a Client,
    guild_id: u64,
    user_id: u64,
    access_token: &'a str,
) -> AddGuildMember<'a>
    requires
        guild_id != 0,
        user_id != 0,
{
    client.add_guild_member(Id::new(guild_id), Id::new(user_id), access_token)
}

/// Relies on `Client::search_guild_members`: builds the request to search a guild's members.
#[verifier::external_body]
pub(crate) fn search_guild_members<'a>(
    client: &'a Client,
    guild_id: u64,
    query: &'a str,
) -> SearchGuildMembers<'a>
    requires
        guild_id != 0,
{
    client.search_guild_members(Id::new(guild_id), query)
}

/// Relies on `Client::remove_guild_member_role`: builds the request to remove a role from a guild member.
#[verifier::external_body]
pub(crate) fn remove_guild_member_role<'a>(
    client: &'a Client,
    guild_id: u64,
    user_id: u64,
    role_id: u64,
) -> RemoveRoleFromMember<'a>
    requires
        guild_id != 0,
        user_id != 0,
        role_id != 0,
{
    client.remove_guild_member_role(Id::new(guild_id), Id::new(user_id), Id::new(role_id))
}

/// Relies on `Client::add_guild_member_role`: builds the request to add a role to a guild member.
#[verifier::external_body]
pub(crate) fn add_guild_member_role<'a>(
    client: &'a Client,
    guild_id: u64,
    user_id: u64,
    role_id: u64,
) -> AddRoleToMember<'a>
    requires
        guild_id != 0,
        user_id != 0,
        role_id != 0,
{
    client.add_guild_member_role(Id::new(guild_id), Id::new(user_id), Id::new(role_id))
}

/// Relies on `Client::guild_preview`: builds the request to get a guild's preview.
#[verifier::external_body]
pub(crate) fn guild_preview<'a>(client: &'a Client, guild_id: u64) -> GetGuildPreview<'a>
    requires
        guild_id != 0,
{
    client.guild_preview(Id::new(guild_id))
}

/// Relies on `Client::guild_prune_count`: builds the request to get a guild's prune information.
#[verifier::external_body]
pub(crate) fn guild_prune_count<'a>(client: &'a Client, guild_id: u64) -> GetGuildPruneCount<'a>
    requires
        guild_id != 0,
{
    client.guild_prune_count(Id::new(guild_id))
}

/// Relies on `Client::create_guild_prune`: builds the request to begin a guild prune.
#[verifier::external_body]
pub(crate) fn create_guild_prune<'a>(client: &'a Client, guild_id: u64) -> CreateGuildPrune<'a>
    requires
        guild_id != 0,
{
    client.create_guild_prune(Id::new(guild_id))
}

/// Relies on `Client::delete_role`: builds the request to delete a guild's role.
#[verifier::external_body]
pub(crate) fn delete_role<'a>(client: &'a Client, guild_id: u64, role_id: u64) -> DeleteRole<'a>
    requires
        guild_id != 0,
        role_id != 0,
{
    client.delete_role(Id::new(guild_id), Id::new(role_id))
}

/// Relies on `Client::roles`: builds the request to list a guild's roles.
#[verifier::external_body]
pub(crate) fn roles<'a>(client: &'a Client, guild_id: u64) -> GetGuildRoles<'a>
    requires
        guild_id != 0,
{
    client.roles(Id::new(guild_id))
}

/// Relies on `Client::update_role`: builds the request to update a guild's role.
#[verifier::external_body]
pub(crate) fn update_role<'a>(client: &'a Client, guild_id: u64, role_id: u64) -> UpdateRole<'a>
    requires
        guild_id != 0,
        role_id != 0,
{
    client.update_role(Id::new(guild_id), Id::new(role_id))
}

/// Relies on `Client::create_role`: builds the request to create a guild role.
#[verifier::external_body]
pub(crate) fn create_role<'a>(client: &'a Client, guild_id: u64) -> CreateRole<'a>
    requires
        guild_id != 0,
{
    client.create_role(Id::new(guild_id))
}

/// Relies on `Client::delete_template`: builds the request to delete a guild's template.
#[verifier::external_body]
pub(crate) fn delete_template<'a>(
    client: &'a Client,
    guild_id: u64,
    code: &'a str,
) -> DeleteTemplate<'a>
    requires
        guild_id != 0,
{
    client.delete_template(Id::new(guild_id), code)
}

/// Relies on `Client::get_templates`: builds the request to list a guild's templates.
#[verifier::external_body]
pub(crate) fn get_templates<'a>(client: &'a Client, guild_id: u64) -> GetTemplates<'a>
    requires
        guild_id != 0,
{
    client.get_templates(Id::new(guild_id))
}

/// Relies on `Client::update_template`: builds the request to update a guild template.
#[verifier::external_body]
pub(crate) fn update_template<'a>(
    client: &'a Client,
    guild_id: u64,
    template_code: &'a str,
) -> UpdateTemplate<'a>
    requires
        guild_id != 0,
{
    client.update_template(Id::new(guild_id), template_code)
}

/// Relies on `Client::create_template`: builds the request to create a guild template, and
/// succeeds exactly when `twilight_validate::request::template_name` accepts the
/// name: between 1 and 100 characters.
#[verifier::external_body]
pub(crate) fn create_template<'a>(client: &'a Client, guild_id: u64, name: &'a str) -> (r: Result<
    CreateTemplate<'a>,
    ValidationError,
>)
    requires
        guild_id != 0,
    ensures
        r is Ok <==> crate::validation::valid_template_name(name@),
{
    client.create_template(Id::new(guild_id), name)
}

/// Relies on `Client::sync_template`: builds the request to sync a guild's template.
#[verifier::external_body]
pub(crate) fn sync_template<'a>(
    client: &'a Client,
    guild_id: u64,
    code: &'a str,
) -> SyncTemplate<'a>
    requires
        guild_id != 0,
{
    client.sync_template(Id::new(guild_id), code)
}

/// Relies on `Client::guild_vanity_url`: builds the request to get a guild's vanity URL.
#[verifier::external_body]
pub(crate) fn guild_vanity_url<'a>(client: &'a Client, guild_id: u64) -> GetGuildVanityUrl<'a>
    requires
        guild_id != 0,
{
    client.guild_vanity_url(Id::new(guild_id))
}

/// Relies on `Client::guild_voice_regions`: builds the request to list a guild's voice regions.
#[verifier::external_body]
pub(crate) fn guild_voice_regions<'a>(client: &'a Client, guild_id: u64) -> GetGuildVoiceRegions<'a>
    requires
        guild_id != 0,
{
    client.guild_voice_regions(Id::new(guild_id))
}

/// Relies on `Client::update_user_voice_state`: builds the request to update a guild member's voice state.
#[verifier::external_body]
pub(crate) fn update_user_voice_state<'a>(
    client: &'a Client,
    guild_id: u64,
    user_id: u64,
    channel_id: u64,
) -> UpdateUserVoiceState<'a>
    requires
        guild_id != 0,
        user_id != 0,
        channel_id != 0,
{
    client.update_user_voice_state(Id::new(guild_id), Id::new(user_id), Id::new(channel_id))
}

/// Relies on `Client::update_current_user_voice_state`: builds the request to update the current user's voice state in a guild.
#[verifier::external_body]
pub(crate) fn update_current_user_voice_state<'a>(
    client: &'a Client,
    guild_id: u64,
    channel_id: u64,
) -> UpdateCurrentUserVoiceState<'a>
    requires
        guild_id != 0,
        channel_id != 0,
{
    client.update_current_user_voice_state(Id::new(guild_id), Id::new(channel_id))
}

/// Relies on `Client::guild_webhooks`: builds the request to list a guild's webhooks.
#[verifier::external_body]
pub(crate) fn guild_webhooks<'a>(client: &'a Client, guild_id: u64) -> GetGuildWebhooks<'a>
    requires
        guild_id != 0,
{
    client.guild_webhooks(Id::new(guild_id))
}

/// Relies on `Client::guild_welcome_screen`: builds the request to get a guild's welcome screen.
#[verifier::external_body]
pub(crate) fn guild_welcome_screen<'a>(
    client: &'a Client,
    guild_id: u64,
) -> GetGuildWelcomeScreen<'a>
    requires
        guild_id != 0,
{
    client.guild_welcome_screen(Id::new(guild_id))
}

/// Relies on `Client::update_guild_welcome_screen`: builds the request to update a guild's welcome screen.
#[verifier::external_body]
pub(crate) fn update_guild_welcome_screen<'a>(
    client: &'a Client,
    guild_id: u64,
) -> UpdateGuildWelcomeScreen<'a>
    requires
        guild_id != 0,
{
    client.update_guild_welcome_screen(Id::new(guild_id))
}

/// Relies on `Client::guild_widget`: builds the request to get a guild's widget.
#[verifier::external_body]
pub(crate) fn guild_widget<'a>(client: &'a Client, guild_id: u64) -> GetGuildWidget<'a>
    requires
        guild_id != 0,
{
    client.guild_widget(Id::new(guild_id))
}

/// Relies on `Client::update_guild_widget`: builds the request to update a guild's widget.
#[verifier::external_body]
pub(crate) fn update_guild_widget<'a>(client: &'a Client, guild_id: u64) -> UpdateGuildWidget<'a>
    requires
        guild_id != 0,
{
    client.update_guild_widget(Id::new(guild_id))
}

/// Relies on `Client::invite`: builds the request to get an invite.
#[verifier::external_body]
pub(crate) fn invite<'a>(client: &'a Client, code: &'a str) -> GetInvite<'a>
{
    client.invite(code)
}

/// Relies on `Client::get_template`: builds the request to get a template.
#[verifier::external_body]
pub(crate) fn get_template<'a>(client: &'a Client, template_code: &'a str) -> GetTemplate<'a>
{
    client.get_template(template_code)
}

/// Relies on `Client::user`: builds the request to get a user.
#[verifier::external_body]
pub(crate) fn user<'a>(client: &'a Client, user_id: u64) -> GetUser<'a>
    requires
        user_id != 0,
{
    client.user(Id::new(user_id))
}

/// Relies on `Client::current_user`: builds the request to get the current user.
#[verifier::external_body]
pub(crate) fn current_user<'a>(client: &'a Client) -> GetCurrentUser<'a>
{
    client.current_user()
}

/// Relies on `Client::update_current_user`: builds the request to update the current user.
#[verifier::external_body]
pub(crate) fn update_current_user<'a>(client: &'a Client) -> UpdateCurrentUser<'a>
{
    client.update_current_user()
}

/// Relies on `Client::current_user_connections`: builds the request to list the current user's connections.
#[verifier::external_body]
pub(crate) fn current_user_connections<'a>(client: &'a Client) -> GetCurrentUserConnections<'a>
{
    client.current_user_connections()
}

/// Relies on `Client::leave_guild`: builds the request to leave one of the current user's guilds.
#[verifier::external_body]
pub(crate) fn leave_guild<'a>(client: &'a Client, guild_id: u64) -> LeaveGuild<'a>
    requires
        guild_id != 0,
{
    client.leave_guild(Id::new(guild_id))
}

/// Relies on `Client::current_user_guilds`: builds the request to list the current user's guilds.
#[verifier::external_body]
pub(crate) fn current_user_guilds<'a>(client: &'a Client) -> GetCurrentUserGuilds<'a>
{
    client.current_user_guilds()
}

/// Relies on `Client::create_private_channel`: builds the request to create a private channel with a user.
#[verifier::external_body]
pub(crate) fn create_private_channel<'a>(
    client: &'a Client,
    user_id: u64,
) -> CreatePrivateChannel<'a>
    requires
        user_id != 0,
{
    client.create_private_channel(Id::new(user_id))
}

/// Relies on `Client::voice_regions`: builds the request to list the voice regions.
#[verifier::external_body]
pub(crate) fn voice_regions<'a>(client: &'a Client) -> GetVoiceRegions<'a>
{
    client.voice_regions()
}

/// Relies on `Client::delete_webhook`: builds the request to delete a webhook.
#[verifier::external_body]
pub(crate) fn delete_webhook<'a>(client: &'a Client, webhook_id: u64) -> DeleteWebhook<'a>
    requires
        webhook_id != 0,
{
    client.delete_webhook(Id::new(webhook_id))
}

/// Relies on `Client::webhook`: builds the request to get a webhook.
#[verifier::external_body]
pub(crate) fn webhook<'a>(client: &'a Client, webhook_id: u64) -> GetWebhook<'a>
    requires
        webhook_id != 0,
{
    client.webhook(Id::new(webhook_id))
}

/// Relies on `Client::update_webhook`: builds the request to update a webhook.
#[verifier::external_body]
pub(crate) fn update_webhook<'a>(client: &'a Client, webhook_id: u64) -> UpdateWebhook<'a>
    requires
        webhook_id != 0,
{
    client.update_webhook(Id::new(webhook_id))
}

/// Relies on `Client::update_webhook_with_token`: builds the request to update a webhook with a token.
#[verifier::external_body]
pub(crate) fn update_webhook_with_token<'a>(
    client: &'a Client,
    webhook_id: u64,
    token: &'a str,
) -> UpdateWebhookWithToken<'a>
    requires
        webhook_id != 0,
{
    client.update_webhook_with_token(Id::new(webhook_id), token)
}

/// Relies on `Client::delete_webhook_message`: builds the request to delete a webhook message.
#[verifier::external_body]
pub(crate) fn delete_webhook_message<'a>(
    client: &'a Client,
    webhook_id: u64,
    token: &'a str,
    message_id: u64,
) -> DeleteWebhookMessage<'a>
    requires
        webhook_id != 0,
        message_id != 0,
{
    client.delete_webhook_message(Id::new(webhook_id), token, Id::new(message_id))
}

/// Relies on `Client::update_webhook_message`: builds the request to update a webhook message.
#[verifier::external_body]
pub(crate) fn update_webhook_message<'a>(
    client: &'a Client,
    webhook_id: u64,
    token: &'a str,
    message_id: u64,
) -> UpdateWebhookMessage<'a>
    requires
        webhook_id != 0,
        message_id != 0,
{
    client.update_webhook_message(Id::new(webhook_id), token, Id::new(message_id))
}

/// Relies on `Client::execute_webhook`: builds the request to create a webhook message.
#[verifier::external_body]
pub(crate) fn execute_webhook<'a>(
    client: &'a Client,
    webhook_id: u64,
    token: &'a str,
) -> ExecuteWebhook<'a>
    requires
        webhook_id != 0,
{
    client.execute_webhook(Id::new(webhook_id), token)
}

/// Relies on `Client::update_current_member`: builds the request updating the
/// current user's member in the given guild.
#[verifier::external_body]
pub(crate) fn update_current_member<'a>(client: &'a Client, guild_id: u64) -> UpdateCurrentMember<'a>
    requires
        guild_id != 0,
{
    client.update_current_member(Id::new(guild_id))
}

/// Relies on `UpdateCurrentMember::nick`: sets the nickname on the request,
/// and succeeds exactly when `twilight_validate::request::nickname` accepts
/// it: between 1 and 32 characters.
#[verifier::external_body]
pub(crate) fn update_current_member_nick<'a>(
    builder: UpdateCurrentMember<'a>,
    nick: &'a str,
) -> (r: Result<UpdateCurrentMember<'a>, ValidationError>)
    ensures
        r is Ok <==> crate::validation::valid_nickname(nick@),
{
    builder.nick(Some(nick))
}

} // verus!
