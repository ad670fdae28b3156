//! Client-side validation rules for validated leaf operations.
//!
//! A validated operation checks a caller-supplied value against a rule the
//! remote side is known to enforce, and refuses to build a request that is
//! doomed to be rejected. The rules here mirror the checks the transport
//! performs when the corresponding request builder is constructed; each
//! validated operation's contract states exactly when it succeeds in terms
//! of these spec functions.

use vstd::prelude::*;

verus! {

/// The rule a validated leaf operation found violated.
///
/// This is the only error the navigation layer itself produces; transport
/// and remote-side failures surface through the request builder's own
/// execution instead.
#[derive(Clone, Copy, Debug, PartialEq, Eq, Structural)]
pub enum ValidationFault {
    /// A guild name must be between 2 and 100 characters.
    GuildName,
    /// A channel name must be between 1 and 100 characters.
    ChannelName,
    /// A template name must be between 1 and 100 characters.
    TemplateName,
    /// A webhook name must be between 2 and 80 characters and must not be
    /// the reserved name.
    WebhookName,
    /// A nickname must be between 1 and 32 characters.
    Nickname,
}

/// A guild name is valid when it has between 2 and 100 characters.
pub open spec fn valid_guild_name(name: Seq<char>) -> bool {
    2 <= name.len() <= 100
}

/// A channel name is valid when it has between 1 and 100 characters.
pub open spec fn valid_channel_name(name: Seq<char>) -> bool {
    1 <= name.len() <= 100
}

/// A template name is valid when it has between 1 and 100 characters.
pub open spec fn valid_template_name(name: Seq<char>) -> bool {
    1 <= name.len() <= 100
}

/// A webhook name is valid when it has between 2 and 80 characters and is
/// not the reserved name "clyde".
pub open spec fn valid_webhook_name(name: Seq<char>) -> bool {
    &&& 2 <= name.len() <= 80
    &&& name != "clyde"@
}

/// A nickname is valid when it has between 1 and 32 characters.
pub open spec fn valid_nickname(nick: Seq<char>) -> bool {
    1 <= nick.len() <= 32
}

/// The guild-name rule rejects at least one input and accepts at least one:
/// the empty name fails and the name "general" passes.
pub proof fn lemma_guild_name_nontrivial()
    ensures
        !valid_guild_name(""@),
        valid_guild_name("general"@),
{
    reveal_strlit("");
    reveal_strlit("general");
    assert(""@.len() == 0);
    assert("general"@.len() == 7);
}

/// The channel-name rule rejects at least one input and accepts at least
/// one: the empty name fails and the name "general" passes.
pub proof fn lemma_channel_name_nontrivial()
    ensures
        !valid_channel_name(""@),
        valid_channel_name("general"@),
{
    reveal_strlit("");
    reveal_strlit("general");
    assert(""@.len() == 0);
    assert("general"@.len() == 7);
}

/// The template-name rule rejects at least one input and accepts at least
/// one: the empty name fails and the name "general" passes.
pub proof fn lemma_template_name_nontrivial()
    ensures
        !valid_template_name(""@),
        valid_template_name("general"@),
{
    reveal_strlit("");
    reveal_strlit("general");
    assert(""@.len() == 0);
    assert("general"@.len() == 7);
}

/// The webhook-name rule rejects at least one input and accepts at least
/// one: the empty name fails — and so does the reserved name "clyde" even
/// though its length is allowed — while the name "general" passes.
pub proof fn lemma_webhook_name_nontrivial()
    ensures
        !valid_webhook_name(""@),
        !valid_webhook_name("clyde"@),
        valid_webhook_name("general"@),
{
    reveal_strlit("");
    reveal_strlit("general");
    reveal_strlit("clyde");
    assert(""@.len() == 0);
    assert("general"@.len() == 7);
    assert("clyde"@.len() == 5);
}

/// The nickname rule rejects at least one input and accepts at least one:
/// the empty nickname fails and the nickname "general" passes.
pub proof fn lemma_nickname_nontrivial()
    ensures
        !valid_nickname(""@),
        valid_nickname("general"@),
{
    reveal_strlit("");
    reveal_strlit("general");
    assert(""@.len() == 0);
    assert("general"@.len() == 7);
}

} // verus!
