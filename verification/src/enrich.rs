//! Display names for a notification, with the fallbacks that apply when a
//! lookup on the chat platform fails.

use vstd::prelude::*;
use vstd::string::StringExecFns;

verus! {

/// What a channel lookup produced.
#[derive(Clone, Debug, PartialEq, Eq)]
pub enum ChannelLookup {
    /// The channel belongs to a guild and has this name.
    Guild { name: String },
    /// The channel exists, but is not a guild channel.
    Other,
    /// The lookup failed.
    Failed,
}

/// What a guild member lookup produced.
#[derive(Clone, Debug, PartialEq, Eq)]
pub enum MemberLookup {
    /// The member was found; `nick` is the nickname set in the guild, if any.
    Found { nick: Option<String> },
    /// The lookup failed.
    Failed,
}

/// The channel name shown in a notification: the guild channel's name, the
/// empty name for a channel outside of a guild, and a fixed text where the
/// lookup failed.
pub open spec fn channel_display_name(lookup: ChannelLookup) -> Seq<char> {
    match lookup {
        ChannelLookup::Guild { name } => name@,
        ChannelLookup::Other => Seq::empty(),
        ChannelLookup::Failed => "Unknown channel"@,
    }
}

/// The author name shown in a notification: the nickname set in the guild,
/// or the account's base name where none is set or the lookup failed.
pub open spec fn display_nickname(base_name: Seq<char>, lookup: MemberLookup) -> Seq<char> {
    match lookup {
        MemberLookup::Found { nick: Some(nick) } => nick@,
        MemberLookup::Found { nick: None } => base_name,
        MemberLookup::Failed => base_name,
    }
}

/// Resolves the channel name to show.
pub fn resolve_channel_name(lookup: ChannelLookup) -> (name: String)
    ensures
        name@ == channel_display_name(lookup),
{
    match lookup {
        ChannelLookup::Guild { name } => name,
        ChannelLookup::Other => String::new(),
        ChannelLookup::Failed => String::from_str("Unknown channel"),
    }
}

/// Resolves the author name to show.
pub fn resolve_nickname(base_name: String, lookup: MemberLookup) -> (name: String)
    ensures
        name@ == display_nickname(base_name@, lookup),
{
    match lookup {
        MemberLookup::Found { nick: Some(nick) } => nick,
        MemberLookup::Found { nick: None } => base_name,
        MemberLookup::Failed => base_name,
    }
}

} // verus!
