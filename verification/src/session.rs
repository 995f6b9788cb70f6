//! One user's real-time connection on the server: what each message from
//! the client leads to, step by step. The connection's loop lives outside;
//! it carries out each `SessionAction` and hands back what the store said.

use vstd::prelude::*;
use crate::ids::{fresh_id, parse_id, uuid_parse};
use crate::models::{ChatMessage, DirectMessage};
use crate::protocol::WsMessage;
use crate::time::now;

verus! {

/// What the connection waits for.
#[derive(Clone, Debug)]
pub enum SessionPhase {
    /// The next message from the client.
    Idle,
    /// The world of the location that a chat message was posted to.
    AwaitLocationWorld { location_id: u128, content: String },
    /// The store's word that a chat message was saved.
    AwaitMessageStored {
        id: u128,
        world_id: u128,
        location_id: u128,
        content: String,
    },
    /// Whether the sender and the receiver of a direct message are friends.
    AwaitFriendship { receiver_id: u128, content: String },
    /// The store's word that a direct message was saved.
    AwaitDmStored { id: u128, receiver_id: u128, content: String },
}

/// What the connection does next.
#[derive(Clone, Debug)]
pub enum SessionAction {
    /// Forward the chat of a location to this client from now on.
    Subscribe { location_id: u128 },
    /// Send a message to this client.
    Reply(WsMessage),
    /// Ask the store for the world of a location.
    LookupLocationWorld { location_id: u128 },
    /// Save a chat message.
    StoreMessage {
        id: u128,
        world_id: u128,
        location_id: u128,
        sender_id: u128,
        sender_name: String,
        content: String,
    },
    /// Ask the store whether two users are friends.
    CheckFriends { user_a: u128, user_b: u128 },
    /// Save a direct message.
    StoreDm { id: u128, sender_id: u128, receiver_id: u128, content: String },
    /// Send a chat message to the subscribers of its location.
    Publish { location_id: u128, message: ChatMessage },
    /// Send a notice to a user's subscribers.
    Notify { user_id: u128, message: WsMessage },
}

/// A signed-in user's connection.
#[derive(Clone, Debug)]
pub struct Session {
    pub user_id: u128,
    pub username: String,
    pub phase: SessionPhase,
}

/// The world id that the store's answer names, if any: an answer that
/// failed, names no world, or names one whose id cannot be read, names none.
pub open spec fn world_named(reply: Result<Option<String>, String>) -> Option<u128> {
    match reply {
        Ok(Some(t)) => match uuid_parse(t@) {
            Ok(id) => Some(id),
            Err(_) => None,
        },
        _ => None,
    }
}

impl Session {
    /// A connection of `user_id`, waiting for the client.
    pub fn new(user_id: u128, username: String) -> (s: Session)
        ensures
            s.user_id == user_id,
            s.username == username,
            s.phase is Idle,
    {
        Session { user_id, username, phase: SessionPhase::Idle }
    }

    /// A message from the client. Joining a location subscribes to its chat;
    /// a chat message first asks for the location's world; a direct message
    /// first asks whether the two are friends; a ping is answered with a
    /// pong; anything else is ignored.
    pub fn on_message(&mut self, msg: WsMessage) -> (acts: Vec<SessionAction>)
        requires
            old(self).phase is Idle,
        ensures
            final(self).user_id == old(self).user_id,
            final(self).username == old(self).username,
            match msg {
                WsMessage::Join { location_id } => final(self).phase is Idle && acts@ == seq![
                    SessionAction::Subscribe { location_id },
                ],
                WsMessage::Chat { location_id, content } => final(self).phase == (
                SessionPhase::AwaitLocationWorld { location_id, content }) && acts@ == seq![
                    SessionAction::LookupLocationWorld { location_id },
                ],
                WsMessage::SendDm { receiver_id, content } => final(self).phase == (
                SessionPhase::AwaitFriendship { receiver_id, content }) && acts@ == seq![
                    SessionAction::CheckFriends { user_a: old(self).user_id, user_b: receiver_id },
                ],
                WsMessage::Ping => final(self).phase is Idle && acts@ == seq![
                    SessionAction::Reply(WsMessage::Pong),
                ],
                _ => final(self).phase is Idle && acts@.len() == 0,
            },
    {
        let mut acts: Vec<SessionAction> = Vec::new();
        match msg {
            WsMessage::Join { location_id } => {
                acts.push(SessionAction::Subscribe { location_id });
            },
            WsMessage::Chat { location_id, content } => {
                self.phase = SessionPhase::AwaitLocationWorld { location_id, content };
                acts.push(SessionAction::LookupLocationWorld { location_id });
            },
            WsMessage::SendDm { receiver_id, content } => {
                self.phase = SessionPhase::AwaitFriendship { receiver_id, content };
                acts.push(SessionAction::CheckFriends { user_a: self.user_id, user_b: receiver_id });
            },
            WsMessage::Ping => {
                acts.push(SessionAction::Reply(WsMessage::Pong));
            },
            _ => {},
        }
        proof {
            if acts@.len() == 1 {
                assert(acts@ =~= seq![acts@[0]]);
            }
        }
        acts
    }

    /// The store named the world of the location posted to (or failed to):
    /// with a world, the message is saved under a fresh id; without one, it
    /// is dropped.
    pub fn on_location_world(&mut self, reply: Result<Option<String>, String>) -> (acts: Vec<
        SessionAction,
    >)
        requires
            old(self).phase is AwaitLocationWorld,
        ensures
            final(self).user_id == old(self).user_id,
            final(self).username == old(self).username,
            match (old(self).phase, world_named(reply)) {
                (SessionPhase::AwaitLocationWorld { location_id, content }, Some(world_id)) => {
                    &&& final(self).phase matches SessionPhase::AwaitMessageStored {
                        id,
                        world_id: w,
                        location_id: l,
                        content: c,
                    }
                    &&& w == world_id && l == location_id && c == content
                    &&& acts@ == seq![
                        SessionAction::StoreMessage {
                            id: final(self).phase->AwaitMessageStored_id,
                            world_id,
                            location_id,
                            sender_id: old(self).user_id,
                            sender_name: old(self).username,
                            content,
                        },
                    ]
                },
                _ => final(self).phase is Idle && acts@.len() == 0,
            },
    {
        let mut acts: Vec<SessionAction> = Vec::new();
        let mut phase = SessionPhase::Idle;
        std::mem::swap(&mut phase, &mut self.phase);
        match phase {
            SessionPhase::AwaitLocationWorld { location_id, content } => {
                let world = match reply {
                    Ok(Some(t)) => match parse_id(t.as_str()) {
                        Ok(id) => Some(id),
                        Err(_) => None,
                    },
                    _ => None,
                };
                match world {
                    Some(world_id) => {
                        let id = fresh_id();
                        let c2 = content.clone();
                        self.phase = SessionPhase::AwaitMessageStored {
                            id,
                            world_id,
                            location_id,
                            content,
                        };
                        acts.push(
                            SessionAction::StoreMessage {
                                id,
                                world_id,
                                location_id,
                                sender_id: self.user_id,
                                sender_name: self.username.clone(),
                                content: c2,
                            },
                        );
                        assert(acts@ =~= seq![acts@[0]]);
                    },
                    None => {},
                }
            },
            _ => {},
        }
        acts
    }

    /// The store saved the chat message (or failed to): a saved message is
    /// published to its location, stamped with the current time and signed
    /// with the connection's user; an unsaved one is dropped.
    pub fn on_message_stored(&mut self, reply: Result<(), String>) -> (acts: Vec<SessionAction>)
        requires
            old(self).phase is AwaitMessageStored,
        ensures
            final(self).user_id == old(self).user_id,
            final(self).username == old(self).username,
            final(self).phase is Idle,
            match (old(self).phase, reply) {
                (SessionPhase::AwaitMessageStored { id, world_id, location_id, content }, Ok(_)) => {
                    &&& acts@.len() == 1
                    &&& acts@[0] matches SessionAction::Publish { location_id: l, message }
                    &&& l == location_id
                    &&& message.id == id
                    &&& message.world_id == world_id
                    &&& message.location_id == location_id
                    &&& message.sender_id == old(self).user_id
                    &&& message.sender_name == old(self).username
                    &&& message.content == content
                    &&& message.timestamp.secs >= 0
                    &&& message.timestamp.nanos < 1_000_000_000
                },
                _ => acts@.len() == 0,
            },
    {
        let mut acts: Vec<SessionAction> = Vec::new();
        let mut phase = SessionPhase::Idle;
        std::mem::swap(&mut phase, &mut self.phase);
        match phase {
            SessionPhase::AwaitMessageStored { id, world_id, location_id, content } => {
                if reply.is_ok() {
                    let message = ChatMessage {
                        id,
                        world_id,
                        location_id,
                        sender_id: self.user_id,
                        sender_name: self.username.clone(),
                        content,
                        timestamp: now(),
                    };
                    acts.push(SessionAction::Publish { location_id, message });
                }
            },
            _ => {},
        }
        acts
    }

    /// The store said whether the two users are friends (or failed, which
    /// counts as not): between friends the message is saved under a fresh
    /// id; otherwise it is dropped.
    pub fn on_friendship(&mut self, reply: Result<bool, String>) -> (acts: Vec<SessionAction>)
        requires
            old(self).phase is AwaitFriendship,
        ensures
            final(self).user_id == old(self).user_id,
            final(self).username == old(self).username,
            match (old(self).phase, reply) {
                (SessionPhase::AwaitFriendship { receiver_id, content }, Ok(true)) => {
                    &&& final(self).phase matches SessionPhase::AwaitDmStored {
                        id,
                        receiver_id: r,
                        content: c,
                    }
                    &&& r == receiver_id && c == content
                    &&& acts@ == seq![
                        SessionAction::StoreDm {
                            id: final(self).phase->AwaitDmStored_id,
                            sender_id: old(self).user_id,
                            receiver_id,
                            content,
                        },
                    ]
                },
                _ => final(self).phase is Idle && acts@.len() == 0,
            },
    {
        let mut acts: Vec<SessionAction> = Vec::new();
        let mut phase = SessionPhase::Idle;
        std::mem::swap(&mut phase, &mut self.phase);
        match phase {
            SessionPhase::AwaitFriendship { receiver_id, content } => {
                let friends = match reply {
                    Ok(b) => b,
                    Err(_) => false,
                };
                if friends {
                    let id = fresh_id();
                    let c2 = content.clone();
                    self.phase = SessionPhase::AwaitDmStored { id, receiver_id, content };
                    acts.push(
                        SessionAction::StoreDm { id, sender_id: self.user_id, receiver_id, content: c2 },
                    );
                    assert(acts@ =~= seq![acts@[0]]);
                }
            },
            _ => {},
        }
        acts
    }

    /// The store saved the direct message (or failed to): a saved message,
    /// stamped with the current time, is sent as a notice to the receiver and
    /// then to the sender; an unsaved one is dropped.
    pub fn on_dm_stored(&mut self, reply: Result<(), String>) -> (acts: Vec<SessionAction>)
        requires
            old(self).phase is AwaitDmStored,
        ensures
            final(self).user_id == old(self).user_id,
            final(self).username == old(self).username,
            final(self).phase is Idle,
            match (old(self).phase, reply) {
                (SessionPhase::AwaitDmStored { id, receiver_id, content }, Ok(_)) => {
                    &&& acts@.len() == 2
                    &&& acts@[0] matches SessionAction::Notify { user_id: u0, message: m0 }
                    &&& acts@[1] matches SessionAction::Notify { user_id: u1, message: m1 }
                    &&& u0 == receiver_id
                    &&& u1 == old(self).user_id
                    &&& m0 == m1
                    &&& m0 matches WsMessage::DirectMessageReceived(dm)
                    &&& dm.id == id
                    &&& dm.sender_id == old(self).user_id
                    &&& dm.sender_name == old(self).username
                    &&& dm.receiver_id == receiver_id
                    &&& dm.content == content
                    &&& dm.timestamp.secs >= 0
                    &&& dm.timestamp.nanos < 1_000_000_000
                },
                _ => acts@.len() == 0,
            },
    {
        let mut acts: Vec<SessionAction> = Vec::new();
        let mut phase = SessionPhase::Idle;
        std::mem::swap(&mut phase, &mut self.phase);
        match phase {
            SessionPhase::AwaitDmStored { id, receiver_id, content } => {
                if reply.is_ok() {
                    let dm = DirectMessage {
                        id,
                        sender_id: self.user_id,
                        sender_name: self.username.clone(),
                        receiver_id,
                        content,
                        timestamp: now(),
                    };
                    let copy = dm.duplicate();
                    acts.push(
                        SessionAction::Notify {
                            user_id: receiver_id,
                            message: WsMessage::DirectMessageReceived(copy),
                        },
                    );
                    acts.push(
                        SessionAction::Notify {
                            user_id: self.user_id,
                            message: WsMessage::DirectMessageReceived(dm),
                        },
                    );
                }
            },
            _ => {},
        }
        acts
    }
}

} // verus!
