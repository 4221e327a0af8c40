use notify_relay::enrich::{ChannelLookup, MemberLookup};
use notify_relay::event::{Author, InboundMessageEvent, Snowflake};
use notify_relay::handler::{compose_text, Handler, NOTIFICATION_INTERVAL};
use notify_relay::notifier::{DispatchOutcome, NotifyError};
use notify_relay::shortener::{ShortenReply, XgdResponse};

const C1: u64 = 111;
const C2: u64 = 222;
const GUILD: u64 = 10;

fn flake(raw: u64) -> Snowflake {
    Snowflake::new(raw).unwrap()
}

fn message(channel: u64, guild: Option<u64>, bot: bool, content: &str) -> InboundMessageEvent {
    InboundMessageEvent {
        id: flake(30),
        channel_id: flake(channel),
        guild_id: guild.map(flake),
        author: Author { id: flake(40), name: String::from("alice"), bot },
        content: String::from(content),
    }
}

fn hello(channel: u64) -> InboundMessageEvent {
    message(channel, Some(GUILD), false, "hello")
}

fn relay() -> Handler {
    Handler::new(60, String::from("KEY"), String::from("TOKEN"))
}

fn general() -> ChannelLookup {
    ChannelLookup::Guild { name: String::from("general") }
}

fn alice() -> MemberLookup {
    MemberLookup::Found { nick: Some(String::from("Alice")) }
}

fn shortened(short: &str) -> ShortenReply {
    ShortenReply::Response {
        status: 200,
        payload: Some(XgdResponse { shorturl: String::from(short) }),
    }
}

#[test]
fn end_to_end_scenario() {
    let mut handler = relay();
    assert_eq!(handler.gate().last_notified(C1), None);

    let admitted = handler.receive(hello(C1), 1_000).expect("the rate gate allows the first message");
    assert_eq!(admitted.event, hello(C1));
    assert_eq!(admitted.guild_id, flake(GUILD));
    assert_eq!(admitted.permalink, "https://discord.com/channels/10/111/30");
    assert_eq!(
        admitted.shorten_url,
        "https://xgd.io/V1/shorten?url=https%3A%2F%2Fdiscord.com%2Fchannels%2F10%2F111%2F30&key=KEY"
    );

    let outbound = handler.compose(admitted, general(), alice(), shortened("https://x.gd/abc"));
    assert_eq!(outbound.channel_id, flake(C1));
    assert_eq!(
        outbound.text,
        "\ngeneralでAliceからの発言\n--------\nhello\n-------- https://x.gd/abc"
    );
    let request = outbound.request.expect("the token can stand in a header");
    assert_eq!(request.url, "https://notify-api.line.me/api/notify");
    assert_eq!(request.authorization, "Bearer TOKEN");
    assert_eq!(request.form, vec![(String::from("message"), outbound.text.clone())]);

    let line = handler.complete(outbound.channel_id, &DispatchOutcome::Answered { status: 200 }, 1_005);
    assert_eq!(line, "Status is 200");
    assert_eq!(handler.gate().last_notified(C1), Some(1_005));
}

#[test]
fn the_template_is_filled_in_order() {
    assert_eq!(
        compose_text("general", "Alice", "hello", "https://x.gd/abc"),
        "\ngeneralでAliceからの発言\n--------\nhello\n-------- https://x.gd/abc"
    );
    assert_eq!(compose_text("", "", "", ""), "\nでからの発言\n--------\n\n-------- ");
}

#[test]
fn a_message_from_an_automated_account_is_dropped() {
    let handler = relay();
    assert_eq!(handler.receive(message(C1, Some(GUILD), true, "hello"), 1_000), None);
    assert_eq!(handler.gate().last_notified(C1), None);
    assert!(handler.receive(hello(C1), 1_000).is_some());
}

#[test]
fn a_message_without_text_is_dropped() {
    let handler = relay();
    assert_eq!(handler.receive(message(C1, Some(GUILD), false, ""), 1_000), None);
    assert_eq!(handler.gate().last_notified(C1), None);
    assert!(handler.receive(hello(C1), 1_000).is_some());
}

#[test]
fn a_message_without_guild_is_dropped() {
    let handler = relay();
    assert_eq!(handler.receive(message(C1, None, false, "hello"), 1_000), None);
    assert_eq!(handler.gate().last_notified(C1), None);
    assert!(handler.receive(hello(C1), 1_000).is_some());
}

#[test]
fn a_dropped_message_leaves_a_running_cooldown_alone() {
    let mut handler = relay();
    handler.complete(flake(C1), &DispatchOutcome::Answered { status: 200 }, 1_000);
    assert_eq!(handler.receive(message(C1, Some(GUILD), true, "hello"), 5_000), None);
    assert_eq!(handler.gate().last_notified(C1), Some(1_000));
}

#[test]
fn a_rejected_shortening_keeps_the_permalink() {
    let handler = relay();
    let admitted = handler.receive(hello(C1), 0).unwrap();
    let reply = ShortenReply::Response { status: 503, payload: None };
    let outbound = handler.compose(admitted, general(), alice(), reply);
    assert_eq!(
        outbound.text,
        "\ngeneralでAliceからの発言\n--------\nhello\n-------- https://discord.com/channels/10/111/30"
    );
}

#[test]
fn a_malformed_body_keeps_the_permalink() {
    let handler = relay();
    let admitted = handler.receive(hello(C1), 0).unwrap();
    let reply = ShortenReply::Response { status: 200, payload: None };
    let outbound = handler.compose(admitted, general(), alice(), reply);
    assert_eq!(
        outbound.text,
        "\ngeneralでAliceからの発言\n--------\nhello\n-------- https://discord.com/channels/10/111/30"
    );
}

/// Reads the short link out of a reply body, as a caller would.
fn decoded(body: &str) -> Option<XgdResponse> {
    let value: serde_json::Value = serde_json::from_str(body).ok()?;
    let shorturl = value.get("shorturl")?.as_str()?;
    Some(XgdResponse { shorturl: String::from(shorturl) })
}

#[test]
fn a_body_that_is_not_json_keeps_the_permalink() {
    let handler = relay();
    let admitted = handler.receive(hello(C1), 0).unwrap();
    let reply = ShortenReply::Response { status: 200, payload: decoded("<html>busy</html>") };
    let outbound = handler.compose(admitted, general(), alice(), reply);
    assert_eq!(
        outbound.text,
        "\ngeneralでAliceからの発言\n--------\nhello\n-------- https://discord.com/channels/10/111/30"
    );
}

#[test]
fn a_body_without_the_field_keeps_the_permalink() {
    let handler = relay();
    let admitted = handler.receive(hello(C1), 0).unwrap();
    let reply = ShortenReply::Response { status: 200, payload: decoded("{\"status\": 200}") };
    let outbound = handler.compose(admitted, general(), alice(), reply);
    assert!(outbound.text.ends_with("-------- https://discord.com/channels/10/111/30"));
}

#[test]
fn a_decoded_body_gives_the_short_link() {
    let handler = relay();
    let admitted = handler.receive(hello(C1), 0).unwrap();
    let body = "{\"status\": 200, \"shorturl\": \"https://x.gd/Zq1\"}";
    let reply = ShortenReply::Response { status: 200, payload: decoded(body) };
    let outbound = handler.compose(admitted, general(), alice(), reply);
    assert_eq!(
        outbound.text,
        "\ngeneralでAliceからの発言\n--------\nhello\n-------- https://x.gd/Zq1"
    );
}

#[test]
fn an_unreachable_shortener_keeps_the_permalink() {
    let handler = relay();
    let admitted = handler.receive(hello(C1), 0).unwrap();
    let outbound = handler.compose(admitted, general(), alice(), ShortenReply::Unreachable);
    assert!(outbound.text.ends_with(" https://discord.com/channels/10/111/30"));
    assert!(outbound.request.is_ok());
}

#[test]
fn failed_lookups_fall_back() {
    let handler = relay();
    let admitted = handler.receive(hello(C1), 0).unwrap();
    let outbound = handler.compose(
        admitted,
        ChannelLookup::Failed,
        MemberLookup::Failed,
        shortened("https://x.gd/abc"),
    );
    assert_eq!(
        outbound.text,
        "\nUnknown channelでaliceからの発言\n--------\nhello\n-------- https://x.gd/abc"
    );
}

#[test]
fn a_member_without_nickname_shows_the_base_name() {
    let handler = relay();
    let admitted = handler.receive(hello(C1), 0).unwrap();
    let outbound = handler.compose(
        admitted,
        ChannelLookup::Other,
        MemberLookup::Found { nick: None },
        shortened("https://x.gd/abc"),
    );
    assert_eq!(outbound.text, "\nでaliceからの発言\n--------\nhello\n-------- https://x.gd/abc");
}

#[test]
fn a_failed_dispatch_still_starts_the_cooldown() {
    let mut handler = relay();
    let admitted = handler.receive(hello(C1), 1_000).unwrap();
    let outbound = handler.compose(admitted, general(), alice(), ShortenReply::Unreachable);
    let failure = DispatchOutcome::TransportError { detail: String::from("connection reset") };
    let line = handler.complete(outbound.channel_id, &failure, 1_000);
    assert_eq!(line, "Error sending notification: connection reset");
    assert_eq!(handler.gate().last_notified(C1), Some(1_000));
    assert_eq!(handler.receive(hello(C1), 1_000), None);
    assert_eq!(handler.receive(hello(C1), 1_059), None);
    assert!(handler.receive(hello(C1), 1_060).is_some());
}

#[test]
fn an_error_status_still_starts_the_cooldown() {
    let mut handler = relay();
    let line = handler.complete(flake(C1), &DispatchOutcome::Answered { status: 500 }, 70);
    assert_eq!(line, "Status is 500");
    assert_eq!(handler.receive(hello(C1), 71), None);
}

#[test]
fn an_unusable_token_stops_the_dispatch_but_not_the_record() {
    let mut handler = Handler::new(60, String::from("KEY"), String::from("bad\ntoken"));
    let admitted = handler.receive(hello(C1), 5).unwrap();
    let outbound = handler.compose(admitted, general(), alice(), shortened("https://x.gd/abc"));
    assert_eq!(
        outbound.text,
        "\ngeneralでAliceからの発言\n--------\nhello\n-------- https://x.gd/abc"
    );
    assert_eq!(outbound.request, Err(NotifyError::InvalidToken));
    let refused = DispatchOutcome::Refused { error: NotifyError::InvalidToken };
    let line = handler.complete(outbound.channel_id, &refused, 6);
    assert_eq!(line, "error sending message: failed to parse header value");
    assert_eq!(handler.receive(hello(C1), 7), None);
}

#[test]
fn another_channel_is_not_held_back() {
    let mut handler = relay();
    handler.complete(flake(C1), &DispatchOutcome::Answered { status: 200 }, 1_000);
    assert_eq!(handler.receive(hello(C1), 1_001), None);
    let admitted = handler.receive(hello(C2), 1_001).unwrap();
    assert_eq!(admitted.permalink, "https://discord.com/channels/10/222/30");
}

#[test]
fn a_suppressed_message_is_not_deferred() {
    let mut handler = relay();
    handler.complete(flake(C1), &DispatchOutcome::Answered { status: 200 }, 1_000);
    assert_eq!(handler.receive(hello(C1), 1_030), None);
    assert_eq!(handler.gate().last_notified(C1), Some(1_000));
    assert!(handler.receive(hello(C1), 1_060).is_some());
}

#[test]
fn the_cooldown_is_sixty_seconds() {
    assert_eq!(NOTIFICATION_INTERVAL, 60_000_000_000);
    let mut handler = Handler::new(NOTIFICATION_INTERVAL, String::new(), String::new());
    handler.complete(flake(C1), &DispatchOutcome::Answered { status: 200 }, 0);
    assert_eq!(handler.receive(hello(C1), 59_999_999_999), None);
    assert!(handler.receive(hello(C1), 60_000_000_000).is_some());
}
