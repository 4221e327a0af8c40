//! The message handler: filter, gate, compose, and record, around the
//! outside calls that the caller performs in between.

use crate::enrich::{
    channel_display_name, display_nickname, resolve_channel_name, resolve_nickname, ChannelLookup,
    MemberLookup,
};
use crate::event::{InboundMessageEvent, Snowflake};
use crate::gate::{RateGate, RateGateView};
use crate::notifier::{
    bearer, header_text_allowed, prepare, report, report_line, DispatchOutcome, NotifyError,
    NotifyRequest, MESSAGE_FIELD, NOTIFY_ENDPOINT,
};
use crate::shortener::{
    link_or_unshortened, resolve_link, shorten, shorten_outcome, shorten_request,
    shorten_request_url, shortening_failed, ShortenReply,
};
use vstd::prelude::*;
use vstd::string::StringExecFns;

verus! {

/// The spacing between two notifications of one channel: sixty seconds, in
/// nanoseconds.
pub const NOTIFICATION_INTERVAL: u64 = 60_000_000_000;

/// The text of a notification.
pub open spec fn notification_text(
    channel_name: Seq<char>,
    nickname: Seq<char>,
    content: Seq<char>,
    link: Seq<char>,
) -> Seq<char> {
    "\n"@ + channel_name + "で"@ + nickname + "からの発言\n--------\n"@ + content + "\n-------- "@
        + link
}

/// Builds the text of a notification.
pub fn compose_text(channel_name: &str, nickname: &str, content: &str, link: &str) -> (text: String)
    ensures
        text@ == notification_text(channel_name@, nickname@, content@, link@),
{
    let mut text = String::from_str("\n");
    text.append(channel_name);
    text.append("で");
    text.append(nickname);
    text.append("からの発言\n--------\n");
    text.append(content);
    text.append("\n-------- ");
    text.append(link);
    text
}

/// A message that passed filter and gate, with what the lookups need.
#[derive(Clone, Debug, PartialEq, Eq)]
pub struct Admitted {
    pub event: InboundMessageEvent,
    /// The guild the message was written in.
    pub guild_id: Snowflake,
    /// The link to the message.
    pub permalink: String,
    /// The address to request for a shortened link.
    pub shorten_url: String,
}

/// A composed notification, ready for dispatch.
#[derive(Debug, PartialEq, Eq)]
pub struct Outbound {
    /// The channel whose cooldown the notification starts.
    pub channel_id: Snowflake,
    /// The text of the notification.
    pub text: String,
    /// The request that delivers it, or why there is none.
    pub request: Result<NotifyRequest, NotifyError>,
}

/// What a handler holds.
pub struct HandlerView {
    pub gate: RateGateView,
    pub shortener_key: Seq<char>,
    pub notify_token: Seq<char>,
}

impl HandlerView {
    /// Whether a message is taken up: it qualifies, and its channel passes
    /// the rate gate at `now`.
    pub open spec fn admits(self, event: InboundMessageEvent, now: u64) -> bool {
        event.eligible() && self.gate.allows(event.channel_id.value(), now)
    }

    /// The handler after the dispatch for `channel` ended at `now`. The
    /// time is recorded however the dispatch went.
    pub open spec fn completed(self, channel: u64, outcome: DispatchOutcome, now: u64) -> HandlerView {
        HandlerView {
            gate: self.gate.recorded(channel, now),
            shortener_key: self.shortener_key,
            notify_token: self.notify_token,
        }
    }
}

impl Admitted {
    /// The text of the notification for this message, given what the
    /// lookups and the shortener returned.
    pub open spec fn composed_text(
        self,
        channel: ChannelLookup,
        member: MemberLookup,
        reply: ShortenReply,
    ) -> Seq<char> {
        notification_text(
            channel_display_name(channel),
            display_nickname(self.event.author.name@, member),
            self.event.content@,
            link_or_unshortened(self.permalink@, shorten_outcome(self.permalink@, reply)),
        )
    }
}

/// Handles message events for all channels: one rate gate, and the secrets
/// of the two services.
pub struct Handler {
    gate: RateGate,
    shortener_key: String,
    notify_token: String,
}

impl View for Handler {
    type V = HandlerView;

    closed spec fn view(&self) -> HandlerView {
        HandlerView {
            gate: self.gate@,
            shortener_key: self.shortener_key@,
            notify_token: self.notify_token@,
        }
    }
}

impl Handler {
    /// A handler that has not notified yet.
    pub fn new(interval: u64, shortener_key: String, notify_token: String) -> (handler: Handler)
        ensures
            handler@.gate.last_notified == Map::<u64, u64>::empty(),
            handler@.gate.interval == interval,
            handler@.shortener_key == shortener_key@,
            handler@.notify_token == notify_token@,
    {
        Handler { gate: RateGate::new(interval), shortener_key, notify_token }
    }

    /// The rate gate, for inspection.
    pub fn gate(&self) -> (gate: &RateGate)
        ensures
            gate@ == self@.gate,
    {
        &self.gate
    }

    /// Takes up a message at time `now`, or drops it. A message is dropped
    /// when it does not qualify, or when its channel is still cooling down;
    /// the handler is the same afterwards either way.
    pub fn receive(&self, event: InboundMessageEvent, now: u64) -> (admitted: Option<Admitted>)
        ensures
            admitted is Some <==> self@.admits(event, now),
            !event.eligible() ==> admitted is None,
            admitted matches Some(a) ==> {
                &&& a.event == event
                &&& event.guild_id == Some(a.guild_id)
                &&& a.permalink@ == event.spec_link()
                &&& a.shorten_url@ == shorten_request_url(event.spec_link(), self@.shortener_key)
            },
    {
        if !event.is_eligible() {
            return None;
        }
        let guild_id = match event.guild_id {
            Some(g) => g,
            None => {
                return None;
            },
        };
        if !self.gate.should_notify(event.channel_id.get(), now) {
            return None;
        }
        let permalink = event.link();
        let shorten_url = shorten_request(permalink.as_str(), self.shortener_key.as_str());
        Some(Admitted { event, guild_id, permalink, shorten_url })
    }

    /// Composes the notification for an admitted message from what the
    /// channel lookup, the member lookup and the shortener returned.
    pub fn compose(
        &self,
        admitted: Admitted,
        channel: ChannelLookup,
        member: MemberLookup,
        reply: ShortenReply,
    ) -> (outbound: Outbound)
        ensures
            outbound.channel_id == admitted.event.channel_id,
            outbound.text@ == admitted.composed_text(channel, member, reply),
            shortening_failed(reply) ==> outbound.text@ == notification_text(
                channel_display_name(channel),
                display_nickname(admitted.event.author.name@, member),
                admitted.event.content@,
                admitted.permalink@,
            ),
            outbound.request is Ok <==> header_text_allowed(self@.notify_token),
            outbound.request matches Ok(r) ==> {
                &&& r.url@ == NOTIFY_ENDPOINT@
                &&& r.authorization@ == bearer(self@.notify_token)
                &&& r.form.deep_view() == seq![(MESSAGE_FIELD@, outbound.text@)]
            },
            outbound.request matches Err(e) ==> e == NotifyError::InvalidToken,
    {
        let Admitted { event, guild_id: _, permalink, shorten_url: _ } = admitted;
        let channel_name = resolve_channel_name(channel);
        let nickname = resolve_nickname(event.author.name, member);
        let shortened = shorten(permalink.as_str(), reply);
        let link = resolve_link(permalink, shortened);
        let text = compose_text(
            channel_name.as_str(),
            nickname.as_str(),
            event.content.as_str(),
            link.as_str(),
        );
        let request = prepare(self.notify_token.as_str(), text.clone());
        Outbound { channel_id: event.channel_id, text, request }
    }

    /// Ends the handling of a message: records `now` as the time of the
    /// channel's last notification, whatever the dispatch came to, and
    /// returns the line that reports the dispatch.
    pub fn complete(&mut self, channel_id: Snowflake, outcome: &DispatchOutcome, now: u64) -> (line:
        String)
        ensures
            final(self)@ == old(self)@.completed(channel_id.value(), *outcome, now),
            final(self)@.gate.last_notified.contains_key(channel_id.value()),
            final(self)@.gate.last_notified[channel_id.value()] == now,
            line@ == report_line(*outcome),
    {
        let line = report(outcome);
        self.gate.record_notified(channel_id.get(), now);
        line
    }
}

/// A message from an automated account, without guild or without text is
/// never taken up, whatever the rate gate holds and whatever the time.
pub proof fn lemma_ineligible_never_admitted(
    handler: HandlerView,
    event: InboundMessageEvent,
    now: u64,
)
    requires
        event.author.bot || event.guild_id is None || event.content@.len() == 0,
    ensures
        !handler.admits(event, now),
{
}

/// The first qualifying message of a channel is taken up.
pub proof fn lemma_first_message_admitted(handler: HandlerView, event: InboundMessageEvent, now: u64)
    requires
        event.eligible(),
        !handler.gate.last_notified.contains_key(event.channel_id.value()),
    ensures
        handler.admits(event, now),
{
}

/// Where shortening failed, the notification ends with the permalink,
/// character for character.
pub proof fn lemma_failed_shortening_keeps_permalink(
    admitted: Admitted,
    channel: ChannelLookup,
    member: MemberLookup,
    reply: ShortenReply,
)
    requires
        shortening_failed(reply),
    ensures
        admitted.composed_text(channel, member, reply) == notification_text(
            channel_display_name(channel),
            display_nickname(admitted.event.author.name@, member),
            admitted.event.content@,
            admitted.permalink@,
        ),
        admitted.permalink@.is_suffix_of(admitted.composed_text(channel, member, reply)),
{
    let text = admitted.composed_text(channel, member, reply);
    assert(text.skip(text.len() - admitted.permalink@.len()) == admitted.permalink@);
}

/// However a dispatch went, and so also where it failed, its time is
/// recorded: a later message in the same channel, less than one interval
/// after it, is not taken up.
pub proof fn lemma_any_dispatch_starts_cooldown(
    handler: HandlerView,
    channel: Snowflake,
    outcome: DispatchOutcome,
    now: u64,
    event: InboundMessageEvent,
    later: u64,
)
    requires
        event.channel_id == channel,
        now <= later,
        later - now < handler.gate.interval,
    ensures
        handler.completed(channel.value(), outcome, now).gate.last_notified[channel.value()] == now,
        !handler.completed(channel.value(), outcome, now).admits(event, later),
{
}

/// Once a full interval has passed since a dispatch, however it went, a
/// qualifying message in the same channel is taken up again.
pub proof fn lemma_admitted_after_interval(
    handler: HandlerView,
    channel: Snowflake,
    outcome: DispatchOutcome,
    now: u64,
    event: InboundMessageEvent,
    later: u64,
)
    requires
        event.eligible(),
        event.channel_id == channel,
        now <= later,
        later - now >= handler.gate.interval,
    ensures
        handler.completed(channel.value(), outcome, now).admits(event, later),
{
}

} // verus!
