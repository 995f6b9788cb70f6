//! The hub that fans messages out: one broadcast channel per location, for
//! the location's chat, and one per user, for that user's notices. Each
//! channel is modelled by the messages sent on it so far, in order; a
//! receiver gets those sent after it subscribed.

use vstd::prelude::*;
use std::collections::HashMap;
use tokio::sync::broadcast::{Receiver, Sender};
use crate::models::ChatMessage;
use crate::protocol::WsMessage;

verus! {

broadcast use vstd::std_specs::hash::group_hash_axioms;

#[verifier::external_type_specification]
#[verifier::external_body]
#[verifier::reject_recursive_types(T)]
pub struct ExBroadcastSender<T>(Sender<T>);

#[verifier::external_type_specification]
#[verifier::external_body]
#[verifier::reject_recursive_types(T)]
pub struct ExBroadcastReceiver<T>(Receiver<T>);

/// How many messages a channel keeps for a slow subscriber.
pub const CHANNEL_CAPACITY: usize = 128;

/// The messages sent on the channel of `tx` so far, in the order sent.
pub uninterp spec fn channel_log(tx: Sender<WsMessage>) -> Seq<WsMessage>;

/// Where `rx` stands in its channel's messages: how many of them were sent
/// before it subscribed, plus how many it has taken since.
pub uninterp spec fn receiver_position(rx: Receiver<WsMessage>) -> nat;

/// The sending half of a broadcast channel, with the number that the hub
/// gave the channel when it opened it.
struct Channel {
    tx: Sender<WsMessage>,
    number: u128,
}

/// A receiving half of a broadcast channel, with the number of the channel
/// it listens to.
pub struct Subscription {
    rx: Receiver<WsMessage>,
    channel: u128,
}

impl Subscription {
    /// The number of the channel it listens to.
    pub closed spec fn listens_to(&self) -> u128 {
        self.channel
    }

    /// Where it stands in its channel's messages (see `receiver_position`):
    /// the next message it gets is the one sent at this index.
    pub closed spec fn position(&self) -> nat {
        receiver_position(self.rx)
    }

    /// The number of the channel it listens to.
    pub fn channel_number(&self) -> (n: u128)
        ensures
            n == self.listens_to(),
    {
        self.channel
    }

    /// The receiver itself, to read the channel's messages from.
    pub fn into_receiver(self) -> Receiver<WsMessage> {
        self.rx
    }
}

/// Calls `tokio::sync::broadcast::channel(capacity)` and keeps the sending
/// half under `number`; the first receiving half is dropped. Nothing has
/// been sent on the new channel. The function panics for a capacity of 0 or
/// above `usize::MAX / 2`, which `requires` leaves out.
#[verifier::external_body]
fn open_channel(capacity: usize, number: u128) -> (ch: Channel)
    requires
        0 < capacity <= usize::MAX / 2,
    ensures
        ch.number == number,
        channel_log(ch.tx) == Seq::<WsMessage>::empty(),
{
    Channel { tx: tokio::sync::broadcast::channel(capacity).0, number }
}

/// Calls `Sender::subscribe`: a new receiver of the same channel, which gets
/// the messages sent on it after this call, in the order sent (one that
/// falls more than the capacity behind skips the oldest). It carries the
/// channel's number and stands at the end of what was sent so far.
#[verifier::external_body]
fn subscribe_to(ch: &Channel) -> (s: Subscription)
    ensures
        s.channel == ch.number,
        receiver_position(s.rx) == channel_log(ch.tx).len(),
{
    Subscription { rx: ch.tx.subscribe(), channel: ch.number }
}

/// Calls `Sender::send` and drops its result: the message is the next one
/// sent on the channel, and every receiver then subscribed gets it; with no
/// receiver left, nobody gets it.
#[verifier::external_body]
fn send_on(ch: &mut Channel, msg: WsMessage)
    ensures
        final(ch).number == old(ch).number,
        channel_log(final(ch).tx) == channel_log(old(ch).tx).push(msg),
{
    let _ = ch.tx.send(msg);
}

/// The channels, keyed by location id and by user id, and how many have
/// been opened.
struct Channels {
    locations: HashMap<u128, Channel>,
    users: HashMap<u128, Channel>,
    opened: u128,
}

impl Channels {
    /// Each channel was opened under a number of its own, below the count of
    /// channels opened.
    spec fn wf(&self) -> bool {
        &&& self.opened == self.locations@.len() + self.users@.len()
        &&& forall|k: u128| #[trigger] self.locations@.contains_key(k) ==> self.locations@[k].number < self.opened
        &&& forall|k: u128| #[trigger] self.users@.contains_key(k) ==> self.users@[k].number < self.opened
        &&& forall|a: u128, b: u128|
            #[trigger] self.locations@.contains_key(a) && #[trigger] self.locations@.contains_key(b) && a != b
                ==> self.locations@[a].number != self.locations@[b].number
        &&& forall|a: u128, b: u128|
            #[trigger] self.users@.contains_key(a) && #[trigger] self.users@.contains_key(b) && a != b
                ==> self.users@[a].number != self.users@[b].number
        &&& forall|a: u128, b: u128|
            #[trigger] self.locations@.contains_key(a) && #[trigger] self.users@.contains_key(b)
                ==> self.locations@[a].number != self.users@[b].number
    }

    fn empty() -> (c: Channels)
        ensures
            c.wf(),
            c.locations@.dom() == Set::<u128>::empty(),
            c.users@.dom() == Set::<u128>::empty(),
    {
        let c = Channels { locations: HashMap::new(), users: HashMap::new(), opened: 0 };
        assert(c.locations@.dom() =~= Set::<u128>::empty());
        assert(c.users@.dom() =~= Set::<u128>::empty());
        c
    }
}

/// The hub: a channel per location and per user, opened on the first
/// subscription and kept from then on.
pub struct Hub {
    channels: Channels,
}

impl Hub {
    #[verifier::type_invariant]
    spec fn inv(&self) -> bool {
        self.channels.wf()
    }

    /// The locations that have a channel.
    pub closed spec fn locations(&self) -> Set<u128> {
        self.channels.locations@.dom()
    }

    /// The users that have a channel.
    pub closed spec fn users(&self) -> Set<u128> {
        self.channels.users@.dom()
    }

    /// The number of the channel of location `id`.
    pub closed spec fn location_channel(&self, id: u128) -> u128 {
        self.channels.locations@[id].number
    }

    /// The number of the channel of user `id`.
    pub closed spec fn user_channel(&self, id: u128) -> u128 {
        self.channels.users@[id].number
    }

    /// The messages sent on the channel of location `id`.
    pub closed spec fn location_log(&self, id: u128) -> Seq<WsMessage> {
        channel_log(self.channels.locations@[id].tx)
    }

    /// The messages sent on the channel of user `id`.
    pub closed spec fn user_log(&self, id: u128) -> Seq<WsMessage> {
        channel_log(self.channels.users@[id].tx)
    }

    /// No channels.
    pub fn new() -> (h: Hub)
        ensures
            h.locations() == Set::<u128>::empty(),
            h.users() == Set::<u128>::empty(),
    {
        Hub { channels: Channels::empty() }
    }

    /// A receiver of the chat of location `location_id`, whose channel is
    /// opened on the first subscription. It gets the messages published to
    /// the location from now on: it stands at the end of what was sent, and
    /// its channel is no other location's or user's. Existing channels, and
    /// what was sent on them, stay as they are.
    pub fn subscribe(&mut self, location_id: u128) -> (rx: Subscription)
        ensures
            rx.listens_to() == final(self).location_channel(location_id),
            rx.position() == final(self).location_log(location_id).len(),
            forall|id: u128|
                #![trigger final(self).location_channel(id)]
                final(self).locations().contains(id) && id != location_id ==> final(self).location_channel(id)
                    != rx.listens_to(),
            forall|id: u128|
                #![trigger final(self).user_channel(id)]
                final(self).users().contains(id) ==> final(self).user_channel(id) != rx.listens_to(),
            final(self).locations() == old(self).locations().insert(location_id),
            !old(self).locations().contains(location_id) ==> final(self).location_log(location_id)
                == Seq::<WsMessage>::empty(),
            forall|id: u128|
                old(self).locations().contains(id) ==> final(self).location_channel(id) == old(
                    self,
                ).location_channel(id) && final(self).location_log(id) == old(self).location_log(id),
            final(self).users() == old(self).users(),
            forall|id: u128|
                old(self).users().contains(id) ==> final(self).user_channel(id) == old(self).user_channel(id)
                    && final(self).user_log(id) == old(self).user_log(id),
    {
        proof { use_type_invariant(&*self); }
        let mut c = Channels::empty();
        std::mem::swap(&mut c, &mut self.channels);
        let ghost c0 = c;
        if !c.locations.contains_key(&location_id) {
            // Each map holds at most `usize::MAX` channels, so the count of
            // channels opened stays below `u128::MAX`.
            let _held: usize = c.locations.len();
            let _user_held: usize = c.users.len();
            let ch = open_channel(CHANNEL_CAPACITY, c.opened);
            c.locations.insert(location_id, ch);
            c.opened = c.opened + 1;
        }
        assert(c.locations@.dom() =~= c0.locations@.dom().insert(location_id));
        let rx = match c.locations.get(&location_id) {
            Some(ch) => subscribe_to(ch),
            None => vstd::pervasive::unreached(),
        };
        self.channels = c;
        rx
    }

    /// A receiver of the notices of user `user_id`, whose channel is opened
    /// on the first subscription. It gets the notices sent to the user from
    /// now on: it stands at the end of what was sent, and its channel is no
    /// other user's or location's. Existing channels, and what was sent on
    /// them, stay as they are.
    pub fn subscribe_user(&mut self, user_id: u128) -> (rx: Subscription)
        ensures
            rx.listens_to() == final(self).user_channel(user_id),
            rx.position() == final(self).user_log(user_id).len(),
            forall|id: u128|
                #![trigger final(self).user_channel(id)]
                final(self).users().contains(id) && id != user_id ==> final(self).user_channel(id)
                    != rx.listens_to(),
            forall|id: u128|
                #![trigger final(self).location_channel(id)]
                final(self).locations().contains(id) ==> final(self).location_channel(id) != rx.listens_to(),
            final(self).users() == old(self).users().insert(user_id),
            !old(self).users().contains(user_id) ==> final(self).user_log(user_id) == Seq::<WsMessage>::empty(),
            forall|id: u128|
                old(self).users().contains(id) ==> final(self).user_channel(id) == old(self).user_channel(id)
                    && final(self).user_log(id) == old(self).user_log(id),
            final(self).locations() == old(self).locations(),
            forall|id: u128|
                old(self).locations().contains(id) ==> final(self).location_channel(id) == old(
                    self,
                ).location_channel(id) && final(self).location_log(id) == old(self).location_log(id),
    {
        proof { use_type_invariant(&*self); }
        let mut c = Channels::empty();
        std::mem::swap(&mut c, &mut self.channels);
        let ghost c0 = c;
        if !c.users.contains_key(&user_id) {
            // Each map holds at most `usize::MAX` channels, so the count of
            // channels opened stays below `u128::MAX`.
            let _held: usize = c.locations.len();
            let _user_held: usize = c.users.len();
            let ch = open_channel(CHANNEL_CAPACITY, c.opened);
            c.users.insert(user_id, ch);
            c.opened = c.opened + 1;
        }
        assert(c.users@.dom() =~= c0.users@.dom().insert(user_id));
        let rx = match c.users.get(&user_id) {
            Some(ch) => subscribe_to(ch),
            None => vstd::pervasive::unreached(),
        };
        self.channels = c;
        rx
    }

    /// Sends `msg` to the subscribers of location `location_id`, as a
    /// `MessageReceived` notice: it is the next message on the location's
    /// channel. A location without a channel has no subscribers: nothing is
    /// sent and no channel is opened. No other channel changes.
    pub fn publish(&mut self, location_id: u128, msg: ChatMessage)
        ensures
            final(self).locations() == old(self).locations(),
            final(self).users() == old(self).users(),
            old(self).locations().contains(location_id) ==> final(self).location_log(location_id) == old(
                self,
            ).location_log(location_id).push(WsMessage::MessageReceived(msg)),
            forall|id: u128|
                old(self).locations().contains(id) ==> final(self).location_channel(id) == old(
                    self,
                ).location_channel(id),
            forall|id: u128|
                old(self).locations().contains(id) && id != location_id ==> final(self).location_log(id) == old(
                    self,
                ).location_log(id),
            forall|id: u128|
                old(self).users().contains(id) ==> final(self).user_channel(id) == old(self).user_channel(id)
                    && final(self).user_log(id) == old(self).user_log(id),
    {
        proof { use_type_invariant(&*self); }
        let mut c = Channels::empty();
        std::mem::swap(&mut c, &mut self.channels);
        let ghost c0 = c;
        match c.locations.remove(&location_id) {
            Some(mut ch) => {
                send_on(&mut ch, WsMessage::MessageReceived(msg));
                c.locations.insert(location_id, ch);
                assert(c.locations@.dom() =~= c0.locations@.dom());
            },
            None => {},
        }
        self.channels = c;
    }

    /// Sends `msg` to the subscribers of user `user_id`: it is the next
    /// message on the user's channel. A user without a channel has no
    /// subscribers: nothing is sent and no channel is opened. No other
    /// channel changes.
    pub fn notify_user(&mut self, user_id: u128, msg: WsMessage)
        ensures
            final(self).locations() == old(self).locations(),
            final(self).users() == old(self).users(),
            old(self).users().contains(user_id) ==> final(self).user_log(user_id) == old(self).user_log(
                user_id,
            ).push(msg),
            forall|id: u128|
                old(self).users().contains(id) ==> final(self).user_channel(id) == old(self).user_channel(id),
            forall|id: u128|
                old(self).users().contains(id) && id != user_id ==> final(self).user_log(id) == old(
                    self,
                ).user_log(id),
            forall|id: u128|
                old(self).locations().contains(id) ==> final(self).location_channel(id) == old(
                    self,
                ).location_channel(id) && final(self).location_log(id) == old(self).location_log(id),
    {
        proof { use_type_invariant(&*self); }
        let mut c = Channels::empty();
        std::mem::swap(&mut c, &mut self.channels);
        let ghost c0 = c;
        match c.users.remove(&user_id) {
            Some(mut ch) => {
                send_on(&mut ch, msg);
                c.users.insert(user_id, ch);
                assert(c.users@.dom() =~= c0.users@.dom());
            },
            None => {},
        }
        self.channels = c;
    }
}

} // verus!
