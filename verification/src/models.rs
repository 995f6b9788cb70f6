//! The domain records shared by the server and the client.

use vstd::prelude::*;
use crate::time::Timestamp;

verus! {

/// Whether a friendship has been accepted by its addressee.
#[derive(Clone, Copy, Debug, PartialEq, Eq, Structural)]
pub enum FriendStatus {
    Pending,
    Accepted,
}

/// A friendship between a requester and an addressee.
#[derive(Clone, Debug)]
pub struct FriendRequest {
    pub id: u128,
    pub requester_id: u128,
    pub requester_name: String,
    pub addressee_id: u128,
    pub addressee_name: String,
    pub status: FriendStatus,
    pub created_at: Timestamp,
}

/// A message between two friends.
#[derive(Clone, Debug)]
pub struct DirectMessage {
    pub id: u128,
    pub sender_id: u128,
    pub sender_name: String,
    pub receiver_id: u128,
    pub content: String,
    pub timestamp: Timestamp,
}

/// A registered account.
#[derive(Clone, Debug)]
pub struct User {
    pub id: u128,
    pub username: String,
    pub created_at: Timestamp,
}

/// Whether a world's characters are shared across worlds or kept per world.
#[derive(Clone, Copy, Debug, PartialEq, Eq, Structural)]
pub enum CharacterMode {
    Universal,
    Local,
}

/// A world: a server with its own theme and locations.
#[derive(Clone, Debug)]
pub struct World {
    pub id: u128,
    pub name: String,
    pub description: String,
    pub owner_id: u128,
    pub theme_id: String,
    pub character_mode: CharacterMode,
    pub invite_code: Option<String>,
    pub created_at: Timestamp,
}

/// A text channel of a world.
#[derive(Clone, Debug)]
pub struct Location {
    pub id: u128,
    pub world_id: u128,
    pub name: String,
}

/// A message posted in a location.
#[derive(Clone, Debug)]
pub struct ChatMessage {
    pub id: u128,
    pub world_id: u128,
    pub location_id: u128,
    pub sender_id: u128,
    pub sender_name: String,
    pub content: String,
    pub timestamp: Timestamp,
}

/// The text under which a character mode is stored.
pub open spec fn mode_text(m: CharacterMode) -> Seq<char> {
    match m {
        CharacterMode::Universal => "Universal"@,
        CharacterMode::Local => "Local"@,
    }
}

/// The character mode that a stored text stands for: `Local` for exactly
/// "Local", `Universal` for any other text.
pub open spec fn mode_of_text(s: Seq<char>) -> CharacterMode {
    if s == "Local"@ {
        CharacterMode::Local
    } else {
        CharacterMode::Universal
    }
}

/// The text under which a friendship status is stored.
pub open spec fn status_text(s: FriendStatus) -> Seq<char> {
    match s {
        FriendStatus::Pending => "pending"@,
        FriendStatus::Accepted => "accepted"@,
    }
}

/// The status that a stored text stands for: `Accepted` for exactly
/// "accepted", `Pending` for any other text.
pub open spec fn status_of_text(s: Seq<char>) -> FriendStatus {
    if s == "accepted"@ {
        FriendStatus::Accepted
    } else {
        FriendStatus::Pending
    }
}

impl CharacterMode {
    /// The stored text of the mode (its name).
    pub fn as_text(&self) -> (r: String)
        ensures
            r@ == mode_text(*self),
    {
        match self {
            CharacterMode::Universal => "Universal".to_owned(),
            CharacterMode::Local => "Local".to_owned(),
        }
    }

    /// Reads a stored mode text.
    pub fn from_text(s: &str) -> (m: CharacterMode)
        ensures
            m == mode_of_text(s@),
    {
        let local = "Local".to_owned();
        let t = s.to_owned();
        if t == local {
            CharacterMode::Local
        } else {
            CharacterMode::Universal
        }
    }
}

impl FriendStatus {
    /// The stored text of the status.
    pub fn as_text(&self) -> (r: String)
        ensures
            r@ == status_text(*self),
    {
        match self {
            FriendStatus::Pending => "pending".to_owned(),
            FriendStatus::Accepted => "accepted".to_owned(),
        }
    }

    /// Reads a stored status text.
    pub fn from_text(s: &str) -> (r: FriendStatus)
        ensures
            r == status_of_text(s@),
    {
        let accepted = "accepted".to_owned();
        let t = s.to_owned();
        if t == accepted {
            FriendStatus::Accepted
        } else {
            FriendStatus::Pending
        }
    }
}

/// Storing a character mode and reading it back gives the same mode.
pub proof fn lemma_mode_text_round_trip(m: CharacterMode)
    ensures
        mode_of_text(mode_text(m)) == m,
{
    reveal_strlit("Local");
    reveal_strlit("Universal");
    if m == CharacterMode::Universal {
        assert("Universal"@[0] != "Local"@[0]);
    }
}

/// Storing a friendship status and reading it back gives the same status.
pub proof fn lemma_status_text_round_trip(s: FriendStatus)
    ensures
        status_of_text(status_text(s)) == s,
{
    reveal_strlit("accepted");
    reveal_strlit("pending");
    if s == FriendStatus::Pending {
        assert("pending"@[0] != "accepted"@[0]);
    }
}

impl FriendRequest {
    /// A copy of the request.
    pub fn duplicate(&self) -> (r: FriendRequest)
        ensures
            r == *self,
    {
        FriendRequest {
            id: self.id,
            requester_id: self.requester_id,
            requester_name: self.requester_name.clone(),
            addressee_id: self.addressee_id,
            addressee_name: self.addressee_name.clone(),
            status: self.status,
            created_at: self.created_at,
        }
    }
}

impl DirectMessage {
    /// A copy of the message.
    pub fn duplicate(&self) -> (r: DirectMessage)
        ensures
            r == *self,
    {
        DirectMessage {
            id: self.id,
            sender_id: self.sender_id,
            sender_name: self.sender_name.clone(),
            receiver_id: self.receiver_id,
            content: self.content.clone(),
            timestamp: self.timestamp,
        }
    }
}

impl ChatMessage {
    /// A copy of the message.
    pub fn duplicate(&self) -> (r: ChatMessage)
        ensures
            r == *self,
    {
        ChatMessage {
            id: self.id,
            world_id: self.world_id,
            location_id: self.location_id,
            sender_id: self.sender_id,
            sender_name: self.sender_name.clone(),
            content: self.content.clone(),
            timestamp: self.timestamp,
        }
    }
}

} // verus!
