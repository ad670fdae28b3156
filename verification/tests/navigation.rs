//! Traversal of the resource tree: child accessors thread identifiers down
//! the hierarchy, leaf operations hand back request builders, and nodes
//! built independently share nothing but the transport handle.

use twilight_http::client::Client;
use twilight_http::request::channel::reaction::RequestReactionType;
use twilight_http::request::guild::update_guild_channel_positions::Position;
use twilight_http::request::TryIntoRequest;
use twilight_model::http::permission_overwrite::{PermissionOverwrite, PermissionOverwriteType};
use twilight_model::id::Id;
use twilight_http_resource::{
    ChannelId, EmojiId, GuildId, IntegrationId, MessageId, Resource, RoleId, UserId, WebhookId,
};

fn client() -> Client {
    Client::new("token".to_owned())
}

#[test]
fn channel_message_chain_binds_both_identifiers() {
    let client = client();
    let messages = client.channels().messages(ChannelId::new(123));

    assert_eq!(messages.channel_id().value(), 123);

    let request = messages.get(MessageId::new(456)).into_inner().try_into_request().unwrap();
    assert!(request.path().contains("channels/123/messages/456"));
}

#[test]
fn guild_member_role_chain_threads_ancestors() {
    let client = client();
    let roles = client.guilds().members(GuildId::new(7)).roles(UserId::new(9));

    assert_eq!(roles.guild_id().value(), 7);
    assert_eq!(roles.user_id().value(), 9);

    let request = roles.put(RoleId::new(11)).into_inner().try_into_request().unwrap();
    assert!(request.path().contains("guilds/7/members/9/roles/11"));
}

#[test]
fn reaction_chain_threads_channel_and_message() {
    let client = client();
    let reactions = client
        .channels()
        .messages(ChannelId::new(21))
        .reactions(MessageId::new(42));

    assert_eq!(reactions.channel_id().value(), 21);
    assert_eq!(reactions.message_id().value(), 42);

    let _ = reactions.delete_list();
    let emoji = RequestReactionType::Unicode { name: "name" };
    let _ = reactions.list(&emoji);
}

#[test]
fn independent_nodes_do_not_share_identifiers() {
    let client = client();
    let guilds = client.guilds();
    let first = guilds.bans(GuildId::new(1));
    let second = guilds.bans(GuildId::new(2));

    assert_eq!(first.guild_id().value(), 1);
    assert_eq!(second.guild_id().value(), 2);

    // Using one node leaves the other's addressing untouched.
    let _ = first.post(UserId::new(3));
    let _ = first.list();
    assert_eq!(first.guild_id().value(), 1);
    assert_eq!(second.guild_id().value(), 2);
}

#[test]
fn webhook_message_chain_carries_token() {
    let client = client();
    let messages = client.webhooks().messages(WebhookId::new(5), "hook-token");

    assert_eq!(messages.webhook_id().value(), 5);
    assert_eq!(messages.token(), "hook-token");

    let request = messages.post().into_inner().try_into_request().unwrap();
    assert!(request.path().contains("webhooks/5/hook-token"));
}

#[test]
fn top_level_nodes_produce_builders() {
    let client = client();

    let _ = client.gateways().get();
    let _ = Resource::voice_regions(&client).list();
    let _ = client.invites().get("codeword");
    let _ = client.templates().get("codeword");
    let _ = client.users().get(UserId::new(8)).into_inner();
    let _ = client.users().me().get();
    let _ = client.users().me().guilds().list();
    let _ = client.users().me().connections().list();
    let _ = client.users().private_channel(UserId::new(8)).post();
}

#[test]
fn unchecked_channel_operations_always_succeed() {
    let client = client();
    let channels = client.channels();

    let _ = channels.delete(ChannelId::new(1));
    let _ = channels.get(ChannelId::new(1));
    let _ = channels.patch(ChannelId::new(1));
    let _ = channels.follow(ChannelId::new(1), ChannelId::new(2));
    let _ = channels.typing(ChannelId::new(1));

    let messages = channels.messages(ChannelId::new(1));
    let ids = [Id::new(4), Id::new(5)];
    let _ = messages.delete_list(&ids);
    let _ = messages.delete(MessageId::new(4));
    let _ = messages.list();
    let _ = messages.patch(MessageId::new(4));
    let _ = messages.post();
    let _ = messages.crosspost(MessageId::new(4));

    let overwrites = channels.permission_overwrites(ChannelId::new(1));
    let overwrite = PermissionOverwrite {
        allow: None,
        deny: None,
        id: Id::new(3),
        kind: PermissionOverwriteType::Member,
    };
    let _ = overwrites.delete();
    let _ = overwrites.put(&overwrite);

    let pins = channels.pins(ChannelId::new(1));
    let _ = pins.delete(MessageId::new(4));
    let _ = pins.list();
    let _ = pins.post(MessageId::new(4));

    let _ = channels.invites(ChannelId::new(1)).list();
    let _ = channels.invites(ChannelId::new(1)).post();
    let _ = channels.webhooks(ChannelId::new(1)).list();
}

#[test]
fn unchecked_guild_operations_always_succeed() {
    let client = client();
    let guilds = client.guilds();
    let guild_id = GuildId::new(10);

    let _ = guilds.delete(guild_id);
    let _ = guilds.get(guild_id);
    let _ = guilds.patch(guild_id);
    let _ = guilds.prune(guild_id).get();
    let _ = guilds.prune(guild_id).post();
    let _ = guilds.preview(guild_id).get();
    let _ = guilds.vanity_url(guild_id).get();
    let _ = guilds.welcome_screen(guild_id).get();
    let _ = guilds.welcome_screen(guild_id).patch();
    let _ = guilds.widget(guild_id).get();
    let _ = guilds.widget(guild_id).patch();
    let _ = guilds.audit_logs(guild_id).list();

    let bans = guilds.bans(guild_id);
    let _ = bans.delete(UserId::new(2));
    let _ = bans.get(UserId::new(2));
    let _ = bans.list();
    let _ = bans.post(UserId::new(2));

    let channels = guilds.channels(guild_id);
    let positions = [Position::from((Id::new(4), 1)), Position::from((Id::new(5), 2))];
    let _ = channels.list();
    let _ = channels.patch_list(&positions);

    let emojis = guilds.emojis(guild_id);
    let _ = emojis.delete(EmojiId::new(6));
    let _ = emojis.get(EmojiId::new(6));
    let _ = emojis.list();
    let _ = emojis.patch(EmojiId::new(6));
    let _ = emojis.post("name", &[1, 2, 3]);

    let integrations = guilds.integrations(guild_id);
    let _ = integrations.delete(IntegrationId::new(12));
    let _ = integrations.list();
    let _ = guilds.invites(guild_id).list();

    let members = guilds.members(guild_id);
    let _ = members.delete(UserId::new(2));
    let _ = members.get(UserId::new(2));
    let _ = members.list();
    let _ = members.patch(UserId::new(2));
    let _ = members.post(UserId::new(2), "access");
    let _ = members.search("query");

    let roles = guilds.roles(guild_id);
    let _ = roles.delete(RoleId::new(3));
    let _ = roles.list();
    let _ = roles.patch(RoleId::new(3));
    let _ = roles.post();

    let templates = guilds.templates(guild_id);
    let _ = templates.delete("codeword");
    let _ = templates.list();
    let _ = templates.patch("codeword");
    let _ = templates.sync("codeword");

    let voice = guilds.voice_states(guild_id, UserId::new(2));
    let _ = voice.patch(ChannelId::new(4));
    let _ = voice.patch_current_user(ChannelId::new(4));

    let _ = guilds.voice_regions(guild_id).list();
    let _ = guilds.webhooks(guild_id).list();
    let _ = client.users().me().guilds().delete(guild_id);
}

#[test]
fn unchecked_webhook_operations_always_succeed() {
    let client = client();
    let webhooks = client.webhooks();

    let _ = webhooks.delete(WebhookId::new(5));
    let _ = webhooks.get(WebhookId::new(5));
    let _ = webhooks.patch(WebhookId::new(5));
    let _ = webhooks.patch_with_token(WebhookId::new(5), "hook-token");

    let messages = webhooks.messages(WebhookId::new(5), "hook-token");
    let _ = messages.delete(MessageId::new(6));
    let messages = webhooks.messages(WebhookId::new(5), "hook-token");
    let _ = messages.patch(MessageId::new(6));
}
