//! Typed resource identifiers.
//!
//! Each resource kind owns a distinct identifier type wrapping a nonzero
//! snowflake value, so that identifiers of different kinds can never be
//! interchanged even though they share a representation. Construction from a
//! raw integer is the only entry point; the transport's identifier type
//! rejects zero, so zero is excluded here as well.

use vstd::prelude::*;

verus! {

/// Identifier of a channel.
#[derive(Clone, Copy, Debug, PartialEq, Eq, Hash, Structural)]
pub struct ChannelId {
    value: u64,
}

impl View for ChannelId {
    type V = u64;

    closed spec fn view(&self) -> u64 {
        self.value
    }
}

impl ChannelId {
    /// The identifier value is never zero.
    #[verifier::type_invariant]
    closed spec fn inv(self) -> bool {
        self.value != 0
    }

    /// Wrap a raw snowflake value.
    pub fn new(value: u64) -> (r: Self)
        requires
            value != 0,
        ensures
            r@ == value,
    {
        ChannelId { value }
    }

    /// The raw snowflake value.
    pub fn value(self) -> (r: u64)
        ensures
            r == self@,
            r != 0,
    {
        proof {
            use_type_invariant(self);
        }
        self.value
    }
}

/// Identifier of a guild.
#[derive(Clone, Copy, Debug, PartialEq, Eq, Hash, Structural)]
pub struct GuildId {
    value: u64,
}

impl View for GuildId {
    type V = u64;

    closed spec fn view(&self) -> u64 {
        self.value
    }
}

impl GuildId {
    /// The identifier value is never zero.
    #[verifier::type_invariant]
    closed spec fn inv(self) -> bool {
        self.value != 0
    }

    /// Wrap a raw snowflake value.
    pub fn new(value: u64) -> (r: Self)
        requires
            value != 0,
        ensures
            r@ == value,
    {
        GuildId { value }
    }

    /// The raw snowflake value.
    pub fn value(self) -> (r: u64)
        ensures
            r == self@,
            r != 0,
    {
        proof {
            use_type_invariant(self);
        }
        self.value
    }
}

/// Identifier of a message.
#[derive(Clone, Copy, Debug, PartialEq, Eq, Hash, Structural)]
pub struct MessageId {
    value: u64,
}

impl View for MessageId {
    type V = u64;

    closed spec fn view(&self) -> u64 {
        self.value
    }
}

impl MessageId {
    /// The identifier value is never zero.
    #[verifier::type_invariant]
    closed spec fn inv(self) -> bool {
        self.value != 0
    }

    /// Wrap a raw snowflake value.
    pub fn new(value: u64) -> (r: Self)
        requires
            value != 0,
        ensures
            r@ == value,
    {
        MessageId { value }
    }

    /// The raw snowflake value.
    pub fn value(self) -> (r: u64)
        ensures
            r == self@,
            r != 0,
    {
        proof {
            use_type_invariant(self);
        }
        self.value
    }
}

/// Identifier of a user.
#[derive(Clone, Copy, Debug, PartialEq, Eq, Hash, Structural)]
pub struct UserId {
    value: u64,
}

impl View for UserId {
    type V = u64;

    closed spec fn view(&self) -> u64 {
        self.value
    }
}

impl UserId {
    /// The identifier value is never zero.
    #[verifier::type_invariant]
    closed spec fn inv(self) -> bool {
        self.value != 0
    }

    /// Wrap a raw snowflake value.
    pub fn new(value: u64) -> (r: Self)
        requires
            value != 0,
        ensures
            r@ == value,
    {
        UserId { value }
    }

    /// The raw snowflake value.
    pub fn value(self) -> (r: u64)
        ensures
            r == self@,
            r != 0,
    {
        proof {
            use_type_invariant(self);
        }
        self.value
    }
}

/// Identifier of a role.
#[derive(Clone, Copy, Debug, PartialEq, Eq, Hash, Structural)]
pub struct RoleId {
    value: u64,
}

impl View for RoleId {
    type V = u64;

    closed spec fn view(&self) -> u64 {
        self.value
    }
}

impl RoleId {
    /// The identifier value is never zero.
    #[verifier::type_invariant]
    closed spec fn inv(self) -> bool {
        self.value != 0
    }

    /// Wrap a raw snowflake value.
    pub fn new(value: u64) -> (r: Self)
        requires
            value != 0,
        ensures
            r@ == value,
    {
        RoleId { value }
    }

    /// The raw snowflake value.
    pub fn value(self) -> (r: u64)
        ensures
            r == self@,
            r != 0,
    {
        proof {
            use_type_invariant(self);
        }
        self.value
    }
}

/// Identifier of a webhook.
#[derive(Clone, Copy, Debug, PartialEq, Eq, Hash, Structural)]
pub struct WebhookId {
    value: u64,
}

impl View for WebhookId {
    type V = u64;

    closed spec fn view(&self) -> u64 {
        self.value
    }
}

impl WebhookId {
    /// The identifier value is never zero.
    #[verifier::type_invariant]
    closed spec fn inv(self) -> bool {
        self.value != 0
    }

    /// Wrap a raw snowflake value.
    pub fn new(value: u64) -> (r: Self)
        requires
            value != 0,
        ensures
            r@ == value,
    {
        WebhookId { value }
    }

    /// The raw snowflake value.
    pub fn value(self) -> (r: u64)
        ensures
            r == self@,
            r != 0,
    {
        proof {
            use_type_invariant(self);
        }
        self.value
    }
}

/// Identifier of an emoji.
#[derive(Clone, Copy, Debug, PartialEq, Eq, Hash, Structural)]
pub struct EmojiId {
    value: u64,
}

impl View for EmojiId {
    type V = u64;

    closed spec fn view(&self) -> u64 {
        self.value
    }
}

impl EmojiId {
    /// The identifier value is never zero.
    #[verifier::type_invariant]
    closed spec fn inv(self) -> bool {
        self.value != 0
    }

    /// Wrap a raw snowflake value.
    pub fn new(value: u64) -> (r: Self)
        requires
            value != 0,
        ensures
            r@ == value,
    {
        EmojiId { value }
    }

    /// The raw snowflake value.
    pub fn value(self) -> (r: u64)
        ensures
            r == self@,
            r != 0,
    {
        proof {
            use_type_invariant(self);
        }
        self.value
    }
}

/// Identifier of a guild integration.
#[derive(Clone, Copy, Debug, PartialEq, Eq, Hash, Structural)]
pub struct IntegrationId {
    value: u64,
}

impl View for IntegrationId {
    type V = u64;

    closed spec fn view(&self) -> u64 {
        self.value
    }
}

impl IntegrationId {
    /// The identifier value is never zero.
    #[verifier::type_invariant]
    closed spec fn inv(self) -> bool {
        self.value != 0
    }

    /// Wrap a raw snowflake value.
    pub fn new(value: u64) -> (r: Self)
        requires
            value != 0,
        ensures
            r@ == value,
    {
        IntegrationId { value }
    }

    /// The raw snowflake value.
    pub fn value(self) -> (r: u64)
        ensures
            r == self@,
            r != 0,
    {
        proof {
            use_type_invariant(self);
        }
        self.value
    }
}

} // verus!
