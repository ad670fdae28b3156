//! Validated leaf operations: each one rejects at least one input without
//! producing a request builder and accepts at least one input, and the
//! returned fault names the rule that failed.

use twilight_http::client::Client;
use twilight_http::request::TryIntoRequest;
use twilight_http_resource::{ChannelId, GuildId, Resource, ValidationFault};

fn client() -> Client {
    Client::new("token".to_owned())
}

#[test]
fn channel_webhook_empty_name_is_rejected() {
    let client = client();
    let webhooks = client.channels().webhooks(ChannelId::new(123));

    let result = webhooks.post("");
    assert!(matches!(result, Err(ValidationFault::WebhookName)));
}

#[test]
fn channel_webhook_named_general_is_accepted() {
    let client = client();
    let webhooks = client.channels().webhooks(ChannelId::new(123));

    let request = webhooks
        .post("general")
        .unwrap()
        .into_inner()
        .try_into_request()
        .unwrap();
    assert!(request.path().contains("channels/123/webhooks"));
    let body = request.body().unwrap();
    let body = std::str::from_utf8(body).unwrap();
    assert!(body.contains("general"));
}

#[test]
fn channel_webhook_reserved_name_is_rejected() {
    let client = client();
    let webhooks = client.channels().webhooks(ChannelId::new(123));

    assert!(matches!(webhooks.post("clyde"), Err(ValidationFault::WebhookName)));
    assert!(matches!(webhooks.post("a"), Err(ValidationFault::WebhookName)));
    assert!(webhooks.post("ab").is_ok());
    assert!(webhooks.post(&"a".repeat(80)).is_ok());
    assert!(matches!(webhooks.post(&"a".repeat(81)), Err(ValidationFault::WebhookName)));
}

#[test]
fn guild_name_length_is_validated() {
    let client = client();
    let guilds = client.guilds();

    assert!(matches!(guilds.post("x".to_owned()), Err(ValidationFault::GuildName)));
    assert!(matches!(guilds.post(String::new()), Err(ValidationFault::GuildName)));
    assert!(guilds.post("my guild".to_owned()).is_ok());
    assert!(guilds.post("ab".to_owned()).is_ok());
    assert!(guilds.post("a".repeat(100)).is_ok());
    assert!(matches!(guilds.post("a".repeat(101)), Err(ValidationFault::GuildName)));
}

#[test]
fn guild_from_template_validates_the_guild_name() {
    let client = client();
    let guilds = client.guilds();

    assert!(matches!(
        guilds.post_from_template("codeword", "x"),
        Err(ValidationFault::GuildName)
    ));
    assert!(guilds.post_from_template("codeword", "my guild").is_ok());
}

#[test]
fn guild_channel_name_length_is_validated() {
    let client = client();
    let channels = client.guilds().channels(GuildId::new(10));

    assert!(matches!(channels.post(""), Err(ValidationFault::ChannelName)));
    assert!(channels.post("general").is_ok());
    assert!(channels.post("g").is_ok());
    assert!(channels.post(&"a".repeat(100)).is_ok());
    assert!(matches!(channels.post(&"a".repeat(101)), Err(ValidationFault::ChannelName)));
}

#[test]
fn guild_template_name_length_is_validated() {
    let client = client();
    let templates = client.guilds().templates(GuildId::new(10));

    assert!(matches!(templates.post(""), Err(ValidationFault::TemplateName)));
    assert!(templates.post("t").is_ok());
    assert!(templates.post(&"a".repeat(100)).is_ok());
    assert!(matches!(templates.post(&"a".repeat(101)), Err(ValidationFault::TemplateName)));
}

#[test]
fn member_nickname_length_is_validated() {
    let client = client();
    let nickname = client.guilds().members(GuildId::new(10)).nickname();

    assert!(matches!(nickname.patch(""), Err(ValidationFault::Nickname)));
    assert!(nickname.patch("nick").is_ok());
    assert!(nickname.patch(&"a".repeat(32)).is_ok());
    assert!(matches!(nickname.patch(&"a".repeat(33)), Err(ValidationFault::Nickname)));
}
