//! Resource-oriented navigation layer over the `twilight-http` client.
//!
//! Instead of reaching for a flat, verb-named method on the client, a caller
//! traverses the REST resource hierarchy the way the API's domain model is
//! structured: a guild's bans, a channel's pinned messages. Each point in the
//! hierarchy is a lightweight resource node holding a shared reference to the
//! transport client together with the path identifiers that address it, and
//! each node offers child accessors (one level deeper) and leaf operations
//! (request builders handed back to the caller).
//!
//! Every leaf operation returns the transport's request builder paired with a
//! ghost [`Route`] recording exactly which operation was addressed and with
//! which identifiers, so the addressing of every request is part of each
//! method's contract. Operations that check a precondition on caller data
//! before building the request return a [`Result`], and their contracts say
//! exactly which inputs pass; the rules live in [`validation`].
//!
//! [`Route`]: route::Route

pub mod channel;
pub mod guild;
pub mod user;
pub mod validation;
pub mod webhook;

mod gateway;
mod id;
mod invite;
mod resource;
mod route;
mod template;
mod transport;
mod voice_region;

pub use self::{
    channel::ChannelResource,
    gateway::GatewayResource,
    guild::GuildResource,
    id::{ChannelId, EmojiId, GuildId, IntegrationId, MessageId, RoleId, UserId, WebhookId},
    invite::InviteResource,
    resource::Resource,
    route::{Addressed, Route},
    template::TemplateResource,
    user::UserResource,
    validation::ValidationFault,
    voice_region::VoiceRegionResource,
    webhook::WebhookResource,
};
