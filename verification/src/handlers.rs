//! The decisions of the request handlers for worlds, locations, friendships
//! and direct messages. Each function decides one step, from what the store
//! answered so far: go on, or answer with an error.

use vstd::prelude::*;
use crate::error::{AppError, is_outcome, STATUS_BAD_REQUEST, STATUS_CONFLICT, STATUS_FORBIDDEN, STATUS_INTERNAL, STATUS_NOT_FOUND};
use crate::ids::{fresh_id, parse_id, uuid_parse};
use crate::models::{FriendRequest, Location, World, mode_text};
use crate::protocol::{CreateLocationRequest, CreateWorldRequest, WsMessage};
use crate::rows::{FriendshipRow, UserRow, WorldRow, friendship_outcome, friendship_to_model, world_from_row, world_outcome};

verus! {

/// How many messages a history answer holds at most: the newest ones.
pub const HISTORY_LIMIT: i64 = 100;

/// A world to store: a fresh id, the request's fields, the owner, the
/// character mode as stored text, and no invite code.
#[derive(Clone, Debug)]
pub struct NewWorld {
    pub id: u128,
    pub name: String,
    pub description: String,
    pub owner_id: u128,
    pub theme_id: String,
    pub character_mode: String,
    pub invite_code: Option<String>,
}

/// The world that `owner_id` asks to create.
pub fn plan_world(req: &CreateWorldRequest, owner_id: u128) -> (w: NewWorld)
    ensures
        w.name == req.name,
        w.description == req.description,
        w.owner_id == owner_id,
        w.theme_id == req.theme_id,
        w.character_mode@ == mode_text(req.character_mode),
        w.invite_code is None,
{
    NewWorld {
        id: fresh_id(),
        name: req.name.clone(),
        description: req.description.clone(),
        owner_id,
        theme_id: req.theme_id.clone(),
        character_mode: req.character_mode.as_text(),
        invite_code: None,
    }
}

/// The answer to a world creation: the world just stored, read back. The
/// world is there, since it was just stored.
pub fn created_world(row: Option<WorldRow>) -> (r: Result<World, AppError>)
    requires
        row is Some,
    ensures
        is_outcome(r, world_outcome(row->Some_0)),
{
    match row {
        Some(w) => world_from_row(&w),
        None => vstd::pervasive::unreached(),
    }
}

/// A world that is not stored is answered with 404 "World not found".
pub fn require_world(row: Option<WorldRow>) -> (r: Result<WorldRow, AppError>)
    ensures
        match row {
            Some(w) => r == Ok::<WorldRow, AppError>(w),
            None => r matches Err(e) && e.status == STATUS_NOT_FOUND && e.message@ == "World not found"@,
        },
{
    match row {
        Some(w) => Ok(w),
        None => Err(AppError::with_text(STATUS_NOT_FOUND, "World not found")),
    }
}

/// Only a member of a world may see or add its locations and messages:
/// others are answered with 403 "Not a member".
pub fn require_member(is_member: bool) -> (r: Result<(), AppError>)
    ensures
        r is Ok <==> is_member,
        r matches Err(e) ==> e.status == STATUS_FORBIDDEN && e.message@ == "Not a member"@,
{
    if is_member {
        Ok(())
    } else {
        Err(AppError::with_text(STATUS_FORBIDDEN, "Not a member"))
    }
}

/// The location to store: a fresh id in `world_id`, with the asked name.
pub fn plan_location(world_id: u128, req: &CreateLocationRequest) -> (l: Location)
    ensures
        l.world_id == world_id,
        l.name == req.name,
{
    Location { id: fresh_id(), world_id, name: req.name.clone() }
}

/// The addressee of a friend request by name, or the status and text of the
/// refusal: 404 "User not found" when no account has the name, 500 when its
/// id cannot be read, 400 "Cannot add yourself" when it is the requester's
/// own account.
pub open spec fn target_outcome(me: u128, target: Option<UserRow>) -> Result<u128, (u16, Seq<char>)> {
    match target {
        None => Err((STATUS_NOT_FOUND, "User not found"@)),
        Some(u) => match uuid_parse(u.id@) {
            Err(m) => Err((STATUS_INTERNAL, m)),
            Ok(id) => if id == me {
                Err((STATUS_BAD_REQUEST, "Cannot add yourself"@))
            } else {
                Ok(id)
            },
        },
    }
}

/// The addressee of a friend request by name, as `target_outcome` says.
pub fn friend_target(me: u128, target: Option<UserRow>) -> (r: Result<u128, AppError>)
    ensures
        match (r, target_outcome(me, target)) {
            (Ok(id), Ok(t)) => id == t,
            (Err(e), Err((status, m))) => e.status == status && e.message@ == m,
            _ => false,
        },
{
    let u = match target {
        None => return Err(AppError::with_text(STATUS_NOT_FOUND, "User not found")),
        Some(u) => u,
    };
    let id = match parse_id(u.id.as_str()) {
        Ok(id) => id,
        Err(m) => return Err(AppError::internal(m)),
    };
    if id == me {
        return Err(AppError::with_text(STATUS_BAD_REQUEST, "Cannot add yourself"));
    }
    Ok(id)
}

/// A friendship already stored between the two users, in either direction,
/// refuses a new request with 409 "Friend request already exists".
pub fn ensure_no_friendship(existing: &Option<FriendshipRow>) -> (r: Result<(), AppError>)
    ensures
        r is Ok <==> existing is None,
        r matches Err(e) ==> e.status == STATUS_CONFLICT && e.message@
            == "Friend request already exists"@,
{
    match existing {
        Some(_) => Err(AppError::with_text(STATUS_CONFLICT, "Friend request already exists")),
        None => Ok(()),
    }
}

/// A pending friendship to store.
#[derive(Clone, Copy, Debug)]
pub struct NewFriendRequest {
    pub id: u128,
    pub requester_id: u128,
    pub addressee_id: u128,
}

/// The friendship that `me` asks of `target`: a fresh id.
pub fn plan_friend_request(me: u128, target: u128) -> (f: NewFriendRequest)
    ensures
        f.requester_id == me,
        f.addressee_id == target,
{
    NewFriendRequest { id: fresh_id(), requester_id: me, addressee_id: target }
}

/// The answer to a friend request: the friendship just stored, read back,
/// or 500 "Failed to fetch friendship" when it cannot be found.
pub fn sent_request(row: Option<FriendshipRow>) -> (r: Result<FriendRequest, AppError>)
    ensures
        match row {
            None => r matches Err(e) && e.status == STATUS_INTERNAL && e.message@
                == "Failed to fetch friendship"@,
            Some(f) => is_outcome(r, friendship_outcome(f)),
        },
{
    match row {
        None => Err(AppError::with_text(STATUS_INTERNAL, "Failed to fetch friendship")),
        Some(f) => friendship_to_model(&f),
    }
}

/// The answer to an acceptance: the friendship as stored after it, and the
/// requester to tell; 404 "Request not found" when there is no such
/// friendship.
pub fn accepted_request(row: Option<FriendshipRow>) -> (r: Result<(FriendRequest, u128), AppError>)
    ensures
        match row {
            None => r matches Err(e) && e.status == STATUS_NOT_FOUND && e.message@
                == "Request not found"@,
            Some(f) => match (r, friendship_outcome(f)) {
                (Ok((m, notify)), Ok(o)) => m == o && notify == o.requester_id,
                (Err(e), Err(msg)) => e.status == STATUS_INTERNAL && e.message@ == msg,
                _ => false,
            },
        },
{
    match row {
        None => Err(AppError::with_text(STATUS_NOT_FOUND, "Request not found")),
        Some(f) => {
            let m = friendship_to_model(&f)?;
            let notify = m.requester_id;
            Ok((m, notify))
        },
    }
}

/// The real-time notice that tells a user of a friendship.
pub fn friend_notice(req: &FriendRequest) -> (m: WsMessage)
    ensures
        m == WsMessage::FriendRequestReceived(*req),
{
    WsMessage::FriendRequestReceived(req.duplicate())
}

/// Only friends may read their direct messages: others are answered with
/// 403 "Not friends".
pub fn require_friends(are_friends: bool) -> (r: Result<(), AppError>)
    ensures
        r is Ok <==> are_friends,
        r matches Err(e) ==> e.status == STATUS_FORBIDDEN && e.message@ == "Not friends"@,
{
    if are_friends {
        Ok(())
    } else {
        Err(AppError::with_text(STATUS_FORBIDDEN, "Not friends"))
    }
}

} // verus!
