//! The rate gate: per channel, the time of the last notification, and the
//! rule that spaces notifications at least one interval apart.

use std::collections::HashMap;
use vstd::prelude::*;

verus! {

broadcast use vstd::std_specs::hash::group_hash_axioms;

/// The time that has passed at `now` since `last`. A clock reading that
/// lies before the recorded one counts as no time at all.
pub open spec fn elapsed_since(last: u64, now: u64) -> nat {
    if now >= last {
        (now - last) as nat
    } else {
        0
    }
}

/// The decision over the recorded times: a channel without a record passes;
/// a channel with one passes once a full interval has elapsed.
pub open spec fn gate_allows(
    last_notified: Map<u64, u64>,
    interval: u64,
    channel: u64,
    now: u64,
) -> bool {
    last_notified.contains_key(channel) ==> elapsed_since(last_notified[channel], now) >= interval
}

/// The recorded times after a notification for `channel` at `now`.
pub open spec fn gate_recorded(last_notified: Map<u64, u64>, channel: u64, now: u64) -> Map<
    u64,
    u64,
> {
    last_notified.insert(channel, now)
}

/// What a rate gate holds: the last notification time of each channel that
/// has had one, and the minimum spacing between two notifications.
pub struct RateGateView {
    pub last_notified: Map<u64, u64>,
    pub interval: u64,
}

impl RateGateView {
    /// Whether a message in `channel` at `now` passes the rate gate.
    pub open spec fn allows(self, channel: u64, now: u64) -> bool {
        gate_allows(self.last_notified, self.interval, channel, now)
    }

    /// The rate gate after a notification for `channel` was recorded at
    /// `now`.
    pub open spec fn recorded(self, channel: u64, now: u64) -> RateGateView {
        RateGateView {
            last_notified: gate_recorded(self.last_notified, channel, now),
            interval: self.interval,
        }
    }
}

/// Per-channel cooldown: times are readings of one monotonic clock, the
/// interval is a span in the same unit.
pub struct RateGate {
    last_notified: HashMap<u64, u64>,
    interval: u64,
}

impl View for RateGate {
    type V = RateGateView;

    closed spec fn view(&self) -> RateGateView {
        RateGateView { last_notified: self.last_notified@, interval: self.interval }
    }
}

impl RateGate {
    /// A gate with no recorded notification.
    pub fn new(interval: u64) -> (gate: RateGate)
        ensures
            gate@.last_notified == Map::<u64, u64>::empty(),
            gate@.interval == interval,
    {
        RateGate { last_notified: HashMap::new(), interval }
    }

    /// The minimum spacing between two notifications of one channel.
    pub fn interval(&self) -> (interval: u64)
        ensures
            interval == self@.interval,
    {
        self.interval
    }

    /// The time of the last notification recorded for `channel`, if any.
    pub fn last_notified(&self, channel: u64) -> (last: Option<u64>)
        ensures
            last == (if self@.last_notified.contains_key(channel) {
                Some(self@.last_notified[channel])
            } else {
                None
            }),
    {
        match self.last_notified.get(&channel) {
            Some(last) => Some(*last),
            None => None,
        }
    }

    /// Decides whether a message in `channel` at time `now` may be notified.
    pub fn should_notify(&self, channel: u64, now: u64) -> (allowed: bool)
        ensures
            allowed == self@.allows(channel, now),
            !self@.last_notified.contains_key(channel) ==> allowed,
    {
        match self.last_notified.get(&channel) {
            Some(last) => {
                let elapsed: u64 = if now >= *last {
                    now - *last
                } else {
                    0
                };
                elapsed >= self.interval
            },
            None => true,
        }
    }

    /// Records that `channel` was notified at time `now`.
    pub fn record_notified(&mut self, channel: u64, now: u64)
        ensures
            final(self)@ == old(self)@.recorded(channel, now),
    {
        self.last_notified.insert(channel, now);
    }
}

/// A channel without a recorded notification passes the rate gate at any time.
pub proof fn lemma_first_message_passes(gate: RateGateView, channel: u64, now: u64)
    requires
        !gate.last_notified.contains_key(channel),
    ensures
        gate.allows(channel, now),
{
}

/// After a notification recorded at `t1`, a message in the same channel at a
/// later `t2` less than one interval away is suppressed.
pub proof fn lemma_suppressed_within_interval(gate: RateGateView, channel: u64, t1: u64, t2: u64)
    requires
        t1 < t2,
        t2 - t1 < gate.interval,
    ensures
        !gate.recorded(channel, t1).allows(channel, t2),
{
}

/// After a notification recorded at `t1`, a message in the same channel at a
/// later `t2` at least one interval away passes.
pub proof fn lemma_passes_after_interval(gate: RateGateView, channel: u64, t1: u64, t2: u64)
    requires
        t1 < t2,
        t2 - t1 >= gate.interval,
    ensures
        gate.recorded(channel, t1).allows(channel, t2),
{
}

/// A message that passes is at least one interval away from the last
/// notification of its channel, as measured when the message is judged.
pub proof fn lemma_passing_message_is_spaced(gate: RateGateView, channel: u64, now: u64)
    requires
        gate.allows(channel, now),
        gate.last_notified.contains_key(channel),
    ensures
        elapsed_since(gate.last_notified[channel], now) >= gate.interval,
{
}

/// Recording a notification for one channel leaves the decision for every
/// other channel as it was.
pub proof fn lemma_channels_independent(
    gate: RateGateView,
    channel: u64,
    other: u64,
    t1: u64,
    now: u64,
)
    requires
        channel != other,
    ensures
        gate.recorded(channel, t1).allows(other, now) == gate.allows(other, now),
{
}

} // verus!
