//! What the chat platform delivers for one message, as plain values.

use crate::text::decimal;
use serenity::model::id::{ChannelId, GuildId, MessageId};
use vstd::prelude::*;

verus! {

/// An identifier issued by the chat platform: a 64-bit number that is never
/// zero.
#[derive(Clone, Copy, Debug, PartialEq, Eq)]
pub struct Snowflake {
    raw: u64,
}

impl Snowflake {
    #[verifier::type_invariant]
    spec fn nonzero(self) -> bool {
        self.raw != 0
    }

    /// The identifier as a number.
    pub closed spec fn value(self) -> u64 {
        self.raw
    }

    /// The identifier with number `raw`; there is none for zero.
    pub fn new(raw: u64) -> (id: Option<Snowflake>)
        ensures
            id is None <==> raw == 0,
            id matches Some(s) ==> s.value() == raw,
    {
        if raw == 0 {
            None
        } else {
            Some(Snowflake { raw })
        }
    }

    /// The identifier as a number.
    pub fn get(&self) -> (raw: u64)
        ensures
            raw == self.value(),
            raw != 0,
    {
        proof {
            use_type_invariant(self);
        }
        self.raw
    }
}

/// The account that wrote a message.
#[derive(Clone, Debug, PartialEq, Eq)]
pub struct Author {
    pub id: Snowflake,
    /// The account's base display name.
    pub name: String,
    /// Whether the account is an automated one.
    pub bot: bool,
}

/// One message-create event.
#[derive(Clone, Debug, PartialEq, Eq)]
pub struct InboundMessageEvent {
    pub id: Snowflake,
    pub channel_id: Snowflake,
    /// The guild the message was written in; `None` outside of any guild.
    pub guild_id: Option<Snowflake>,
    pub author: Author,
    /// The raw text of the message.
    pub content: String,
}

/// The permalink of a message: the platform's base address, then the guild
/// (`@me` outside of a guild), the channel and the message, in decimal.
pub open spec fn permalink(message: u64, channel: u64, guild: Option<u64>) -> Seq<char> {
    "https://discord.com/channels/"@ + (match guild {
        Some(g) => decimal(g as nat),
        None => "@me"@,
    }) + "/"@ + decimal(channel as nat) + "/"@ + decimal(message as nat)
}

/// Calls `MessageId::link` of serenity. For nonzero identifiers it returns
/// the address under which the platform shows the message: the fixed prefix
/// followed by the guild, channel and message numbers in decimal, with
/// `@me` in the guild's place for a message outside of a guild.
#[verifier::external_body]
fn message_link(message: u64, channel: u64, guild: Option<u64>) -> (link: String)
    requires
        message != 0,
        channel != 0,
        guild != Some(0u64),
    ensures
        link@ == permalink(message, channel, guild),
{
    MessageId::new(message).link(ChannelId::new(channel), guild.map(GuildId::new))
}

impl InboundMessageEvent {
    /// The guild's number, where the message has a guild.
    pub open spec fn guild_value(&self) -> Option<u64> {
        match self.guild_id {
            Some(g) => Some(g.value()),
            None => None,
        }
    }

    /// The permalink of this message.
    pub open spec fn spec_link(&self) -> Seq<char> {
        permalink(self.id.value(), self.channel_id.value(), self.guild_value())
    }

    /// Whether the message qualifies for a notification: written by a
    /// person, inside a guild, with some text.
    pub open spec fn eligible(&self) -> bool {
        &&& !self.author.bot
        &&& self.guild_id is Some
        &&& self.content@.len() > 0
    }

    /// Decides whether the message qualifies for a notification.
    pub fn is_eligible(&self) -> (ok: bool)
        ensures
            ok == self.eligible(),
    {
        !self.author.bot && self.guild_id.is_some() && !self.content.as_str().is_empty()
    }

    /// A link that leads to this message.
    pub fn link(&self) -> (link: String)
        ensures
            link@ == self.spec_link(),
    {
        let guild = match &self.guild_id {
            Some(g) => Some(g.get()),
            None => None,
        };
        message_link(self.id.get(), self.channel_id.get(), guild)
    }
}

} // verus!
