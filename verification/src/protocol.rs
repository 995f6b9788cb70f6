//! The messages exchanged between client and server.

use vstd::prelude::*;
use crate::models::{ChatMessage, CharacterMode, DirectMessage, FriendRequest};

verus! {

/// A message on the real-time channel, in either direction.
#[derive(Clone, Debug)]
pub enum WsMessage {
    Join { location_id: u128 },
    Leave { location_id: u128 },
    Chat { location_id: u128, content: String },
    MessageReceived(ChatMessage),
    SendDm { receiver_id: u128, content: String },
    DirectMessageReceived(DirectMessage),
    FriendRequestReceived(FriendRequest),
    Error { message: String },
    Ping,
    Pong,
}

/// The body of a registration.
#[derive(Clone, Debug)]
pub struct RegisterRequest {
    pub username: String,
    pub password: String,
}

/// The body of a login.
#[derive(Clone, Debug)]
pub struct LoginRequest {
    pub username: String,
    pub password: String,
}

/// The answer to a successful registration or login.
#[derive(Clone, Debug)]
pub struct AuthResponse {
    pub token: String,
    pub user_id: u128,
    pub username: String,
}

/// The body of a world creation.
#[derive(Clone, Debug)]
pub struct CreateWorldRequest {
    pub name: String,
    pub description: String,
    pub theme_id: String,
    pub character_mode: CharacterMode,
}

/// The body of a location creation.
#[derive(Clone, Debug)]
pub struct CreateLocationRequest {
    pub name: String,
}

/// The body of a request to join a world.
#[derive(Clone, Debug)]
pub struct JoinWorldRequest {
    pub invite_code: Option<String>,
}

/// The body of an error answer.
#[derive(Clone, Debug)]
pub struct ApiError {
    pub error: String,
}

/// The body of a friend request.
#[derive(Clone, Debug)]
pub struct SendFriendRequestBody {
    pub username: String,
}

/// An accepted friend: the other party of an accepted friendship.
#[derive(Clone, Debug)]
pub struct FriendEntry {
    pub user_id: u128,
    pub username: String,
}

/// A user's friends and pending requests.
#[derive(Clone, Debug)]
pub struct FriendsResponse {
    pub friends: Vec<FriendEntry>,
    pub pending_incoming: Vec<FriendRequest>,
    pub pending_outgoing: Vec<FriendRequest>,
}

} // verus!
