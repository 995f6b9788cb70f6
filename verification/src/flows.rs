//! The server's request handlers as step machines. A handler asks the store
//! one thing at a time (`Step::Call`) and is handed the store's reply, until
//! it answers (`Step::Answer`). The decisions between the calls, and which
//! call comes next, are made here; the store itself lives outside.

use vstd::prelude::*;
use crate::accounts::{MAX_HASHED_BYTES, check_login, ensure_username_free, login_outcome, new_account, validate_registration, registration_ok, argon2_verifies, phc_parse};
use crate::error::{AppError, is_outcome, STATUS_BAD_REQUEST, STATUS_CONFLICT, STATUS_FORBIDDEN, STATUS_INTERNAL, STATUS_NOT_FOUND};
use crate::friends::{list_friends, sort_friendships};
use crate::handlers::{
    accepted_request, created_world, ensure_no_friendship, friend_target, plan_friend_request, plan_location,
    plan_world, require_friends, require_member, require_world, sent_request, target_outcome, NewFriendRequest, NewWorld,
    HISTORY_LIMIT,
};
use crate::ids::uuid_parse;
use crate::models::{ChatMessage, DirectMessage, FriendRequest, Location, World, mode_text};
use crate::protocol::{CreateLocationRequest, CreateWorldRequest, FriendsResponse, LoginRequest, RegisterRequest};
use crate::rows::{
    DmRow, FriendshipRow, LocationRow, MessageRow, UserRow, WorldRow, dm_outcome, dms_from_rows, friendship_outcome,
    is_list_outcome, location_outcome, locations_from_rows, message_outcome, messages_from_rows, read_all,
    read_all_reversed, world_from_row, world_outcome, worlds_from_rows,
};
use crate::text::{trimmed, utf8_len};

verus! {

/// A question or an order for the store.
#[derive(Clone, Debug)]
pub enum StoreCall {
    FindUserByUsername { username: String },
    CreateUser { id: u128, username: String, password_hash: String },
    CreateWorld { world: NewWorld },
    GetWorld { world_id: u128 },
    ListWorldsForUser { user_id: u128 },
    AddWorldMember { world_id: u128, user_id: u128 },
    IsWorldMember { world_id: u128, user_id: u128 },
    CreateLocation { id: u128, world_id: u128, name: String },
    ListLocations { world_id: u128 },
    FetchMessages { location_id: u128, limit: i64 },
    FindFriendship { user_a: u128, user_b: u128 },
    CreateFriendRequest { request: NewFriendRequest },
    AcceptFriendRequest { friendship_id: u128, addressee_id: u128 },
    DeleteFriendship { friendship_id: u128, user_id: u128 },
    ListFriendships { user_id: u128 },
    AreFriends { user_a: u128, user_b: u128 },
    FetchDmHistory { user_a: u128, user_b: u128, limit: i64 },
}

/// The store's reply to a call: what it found, or the text of its failure.
#[derive(Clone, Debug)]
pub enum StoreReply {
    Done,
    User(Option<UserRow>),
    World(Option<WorldRow>),
    Worlds(Vec<WorldRow>),
    Flag(bool),
    Locations(Vec<LocationRow>),
    Messages(Vec<MessageRow>),
    Friendship(Option<FriendshipRow>),
    Friendships(Vec<FriendshipRow>),
    Dms(Vec<DmRow>),
    Failed(String),
}

/// What a handler does next: ask the store, or answer the request.
#[derive(Debug)]
pub enum Step<T> {
    Call(StoreCall),
    Answer(Result<T, AppError>),
}

/// A signed-in identity: the answer to a registration or a login, from which
/// the session token is made.
#[derive(Clone, Debug)]
pub struct Identity {
    pub user_id: u128,
    pub username: String,
}

/// A friendship to answer with, and the user to tell of it.
#[derive(Clone, Debug)]
pub struct FriendNotice {
    pub request: FriendRequest,
    pub notify: u128,
}

/// `s` answers with status 500 and the text `m`: a failure of the store.
pub open spec fn store_failure<T>(s: Step<T>, m: Seq<char>) -> bool {
    s matches Step::Answer(Err(e)) && e.status == STATUS_INTERNAL && e.message@ == m
}

/// `s` answers with status `status` and the text `m`.
pub open spec fn refusal<T>(s: Step<T>, status: u16, m: Seq<char>) -> bool {
    s matches Step::Answer(Err(e)) && e.status == status && e.message@ == m
}

/// `s` answers with the outcome `o` (a value, or an internal error).
pub open spec fn answers_outcome<T>(s: Step<T>, o: Result<T, Seq<char>>) -> bool {
    s matches Step::Answer(r) && is_outcome(r, o)
}

/// `s` answers with the list outcome `o`.
pub open spec fn answers_list<T>(s: Step<Vec<T>>, o: Result<Seq<T>, Seq<char>>) -> bool {
    s matches Step::Answer(r) && is_list_outcome(r, o)
}

fn fail<T>(m: String) -> (s: Step<T>)
    ensures
        store_failure(s, m@),
{
    Step::Answer(Err(AppError::internal(m)))
}

// ----------------------------------------------------------------------
// Registration

/// Where a registration stands.
#[derive(Clone, Debug)]
pub enum RegisterPhase {
    Start,
    AwaitLookup { username: String },
    AwaitCreate { user_id: u128, username: String },
    Finished,
}

/// Registers an account: checks the form, refuses a taken name, hashes the
/// password, stores the account, and answers with its identity.
#[derive(Clone, Debug)]
pub struct RegisterFlow {
    pub request: RegisterRequest,
    pub phase: RegisterPhase,
}

/// The text of a refused registration form.
pub open spec fn registration_refusal(username: Seq<char>) -> Seq<char> {
    if trimmed(username).len() == 0 || utf8_len(trimmed(username)) > crate::accounts::MAX_USERNAME_BYTES {
        "Invalid username"@
    } else {
        "Password too short"@
    }
}

impl RegisterFlow {
    pub fn new(request: RegisterRequest) -> (f: RegisterFlow)
        ensures
            f.request == request,
            f.phase is Start,
    {
        RegisterFlow { request, phase: RegisterPhase::Start }
    }

    /// Whether `reply` is what the flow waits for.
    pub open spec fn accepts(&self, reply: Option<StoreReply>) -> bool {
        match self.phase {
            RegisterPhase::Start => reply is None,
            RegisterPhase::AwaitLookup { .. } => reply matches Some(r) && (r is User || r is Failed),
            RegisterPhase::AwaitCreate { .. } => reply matches Some(r) && (r is Done || r is Failed),
            RegisterPhase::Finished => false,
        }
    }

    pub fn expects(&self, reply: &Option<StoreReply>) -> (b: bool)
        ensures
            b == self.accepts(*reply),
    {
        match self.phase {
            RegisterPhase::Start => reply.is_none(),
            RegisterPhase::AwaitLookup { .. } => match reply {
                Some(StoreReply::User(_)) | Some(StoreReply::Failed(_)) => true,
                _ => false,
            },
            RegisterPhase::AwaitCreate { .. } => match reply {
                Some(StoreReply::Done) | Some(StoreReply::Failed(_)) => true,
                _ => false,
            },
            RegisterPhase::Finished => false,
        }
    }

    pub fn next(&mut self, reply: Option<StoreReply>) -> (s: Step<Identity>)
        requires
            old(self).accepts(reply),
        ensures
            final(self).request == old(self).request,
            match (old(self).phase, reply) {
                (RegisterPhase::Start, _) => if registration_ok(
                    old(self).request.username@,
                    old(self).request.password@,
                ) {
                    &&& final(self).phase matches RegisterPhase::AwaitLookup { username }
                    &&& username@ == trimmed(old(self).request.username@)
                    &&& s == Step::<Identity>::Call(StoreCall::FindUserByUsername { username })
                } else {
                    &&& final(self).phase is Finished
                    &&& refusal(s, STATUS_BAD_REQUEST, registration_refusal(old(self).request.username@))
                },
                (RegisterPhase::AwaitLookup { username }, Some(StoreReply::User(existing))) => if existing is Some {
                    final(self).phase is Finished && refusal(s, STATUS_CONFLICT, "Username already taken"@)
                } else {
                    ||| {
                        &&& utf8_len(old(self).request.password@) > MAX_HASHED_BYTES
                        &&& final(self).phase is Finished
                        &&& s matches Step::Answer(Err(e))
                        &&& e.status == STATUS_INTERNAL
                    }
                    ||| {
                        &&& final(self).phase matches RegisterPhase::AwaitCreate { user_id, username: n }
                        &&& n == username
                        &&& s matches Step::Call(StoreCall::CreateUser { id, username: n2, password_hash })
                        &&& id == user_id
                        &&& n2 == username
                        &&& phc_parse(password_hash@) is Ok
                        &&& argon2_verifies(old(self).request.password@, password_hash@)
                    }
                },
                (RegisterPhase::AwaitCreate { user_id, username }, Some(StoreReply::Done)) => {
                    &&& final(self).phase is Finished
                    &&& s matches Step::Answer(Ok(id))
                    &&& id.user_id == user_id
                    &&& id.username == username
                },
                (_, Some(StoreReply::Failed(m))) => final(self).phase is Finished && store_failure(s, m@),
                _ => true,
            },
    {
        let mut phase = RegisterPhase::Finished;
        std::mem::swap(&mut phase, &mut self.phase);
        match (phase, reply) {
            (RegisterPhase::Start, _) => match validate_registration(&self.request) {
                Err(e) => Step::Answer(Err(e)),
                Ok(username) => {
                    let u2 = username.clone();
                    self.phase = RegisterPhase::AwaitLookup { username };
                    Step::Call(StoreCall::FindUserByUsername { username: u2 })
                },
            },
            (RegisterPhase::AwaitLookup { username }, Some(StoreReply::User(existing))) => {
                match ensure_username_free(&existing) {
                    Err(e) => return Step::Answer(Err(e)),
                    Ok(()) => {},
                }
                match new_account(self.request.password.as_str()) {
                    Err(e) => Step::Answer(Err(e)),
                    Ok(account) => {
                        let u2 = username.clone();
                        self.phase = RegisterPhase::AwaitCreate { user_id: account.id, username };
                        Step::Call(
                            StoreCall::CreateUser {
                                id: account.id,
                                username: u2,
                                password_hash: account.password_hash,
                            },
                        )
                    },
                }
            },
            (RegisterPhase::AwaitCreate { user_id, username }, Some(StoreReply::Done)) => {
                Step::Answer(Ok(Identity { user_id, username }))
            },
            (_, Some(StoreReply::Failed(m))) => fail(m),
            _ => vstd::pervasive::unreached(),
        }
    }
}

// ----------------------------------------------------------------------
// Login

/// Where a login stands.
#[derive(Clone, Debug)]
pub enum LoginPhase {
    Start,
    AwaitLookup,
    Finished,
}

/// Logs in: looks the account up by the name as typed, then checks the
/// password as `check_login` does.
#[derive(Clone, Debug)]
pub struct LoginFlow {
    pub request: LoginRequest,
    pub phase: LoginPhase,
}

impl LoginFlow {
    pub fn new(request: LoginRequest) -> (f: LoginFlow)
        ensures
            f.request == request,
            f.phase is Start,
    {
        LoginFlow { request, phase: LoginPhase::Start }
    }

    /// Whether `reply` is what the flow waits for.
    pub open spec fn accepts(&self, reply: Option<StoreReply>) -> bool {
        match self.phase {
            LoginPhase::Start => reply is None,
            LoginPhase::AwaitLookup => reply matches Some(r) && (r is User || r is Failed),
            LoginPhase::Finished => false,
        }
    }

    pub fn expects(&self, reply: &Option<StoreReply>) -> (b: bool)
        ensures
            b == self.accepts(*reply),
    {
        match self.phase {
            LoginPhase::Start => reply.is_none(),
            LoginPhase::AwaitLookup => match reply {
                Some(StoreReply::User(_)) | Some(StoreReply::Failed(_)) => true,
                _ => false,
            },
            LoginPhase::Finished => false,
        }
    }

    pub fn next(&mut self, reply: Option<StoreReply>) -> (s: Step<Identity>)
        requires
            old(self).accepts(reply),
        ensures
            final(self).request == old(self).request,
            match (old(self).phase, reply) {
                (LoginPhase::Start, _) => final(self).phase is AwaitLookup && s == Step::<Identity>::Call(
                    StoreCall::FindUserByUsername { username: old(self).request.username },
                ),
                (LoginPhase::AwaitLookup, Some(StoreReply::User(row))) => {
                    &&& final(self).phase is Finished
                    &&& s matches Step::Answer(r)
                    &&& match (r, login_outcome(row, old(self).request.password@)) {
                        (Ok(i), Ok((id, name))) => i.user_id == id && i.username@ == name,
                        (Err(e), Err((status, m))) => e.status == status && e.message@ == m,
                        _ => false,
                    }
                },
                (_, Some(StoreReply::Failed(m))) => final(self).phase is Finished && store_failure(s, m@),
                _ => true,
            },
    {
        let mut phase = LoginPhase::Finished;
        std::mem::swap(&mut phase, &mut self.phase);
        match (phase, reply) {
            (LoginPhase::Start, _) => {
                self.phase = LoginPhase::AwaitLookup;
                Step::Call(StoreCall::FindUserByUsername { username: self.request.username.clone() })
            },
            (LoginPhase::AwaitLookup, Some(StoreReply::User(row))) => {
                match check_login(row, self.request.password.as_str()) {
                    Ok((user_id, username)) => Step::Answer(Ok(Identity { user_id, username })),
                    Err(e) => Step::Answer(Err(e)),
                }
            },
            (_, Some(StoreReply::Failed(m))) => fail(m),
            _ => vstd::pervasive::unreached(),
        }
    }
}


// ----------------------------------------------------------------------
// Worlds

/// Where a world creation stands.
#[derive(Clone, Debug)]
pub enum CreateWorldPhase {
    Start,
    AwaitCreate { world_id: u128 },
    AwaitRead,
    Finished,
}

/// Creates a world owned by the user (who becomes its first member), then
/// reads it back to answer.
#[derive(Clone, Debug)]
pub struct CreateWorldFlow {
    pub user_id: u128,
    pub request: CreateWorldRequest,
    pub phase: CreateWorldPhase,
}

impl CreateWorldFlow {
    pub fn new(user_id: u128, request: CreateWorldRequest) -> (f: CreateWorldFlow)
        ensures
            f.user_id == user_id,
            f.request == request,
            f.phase is Start,
    {
        CreateWorldFlow { user_id, request, phase: CreateWorldPhase::Start }
    }

    /// Whether `reply` is what the flow waits for; the world just stored is
    /// found when read back.
    pub open spec fn accepts(&self, reply: Option<StoreReply>) -> bool {
        match self.phase {
            CreateWorldPhase::Start => reply is None,
            CreateWorldPhase::AwaitCreate { .. } => reply matches Some(r) && (r is Done || r is Failed),
            CreateWorldPhase::AwaitRead => reply matches Some(r) && (r matches StoreReply::World(Some(_))
                || r is Failed),
            CreateWorldPhase::Finished => false,
        }
    }

    pub fn expects(&self, reply: &Option<StoreReply>) -> (b: bool)
        ensures
            b == self.accepts(*reply),
    {
        match self.phase {
            CreateWorldPhase::Start => reply.is_none(),
            CreateWorldPhase::AwaitCreate { .. } => match reply {
                Some(StoreReply::Done) | Some(StoreReply::Failed(_)) => true,
                _ => false,
            },
            CreateWorldPhase::AwaitRead => match reply {
                Some(StoreReply::World(Some(_))) | Some(StoreReply::Failed(_)) => true,
                _ => false,
            },
            CreateWorldPhase::Finished => false,
        }
    }

    pub fn next(&mut self, reply: Option<StoreReply>) -> (s: Step<World>)
        requires
            old(self).accepts(reply),
        ensures
            final(self).user_id == old(self).user_id,
            final(self).request == old(self).request,
            match (old(self).phase, reply) {
                (CreateWorldPhase::Start, _) => {
                    &&& s matches Step::Call(StoreCall::CreateWorld { world })
                    &&& final(self).phase == (CreateWorldPhase::AwaitCreate { world_id: world.id })
                    &&& world.name == old(self).request.name
                    &&& world.description == old(self).request.description
                    &&& world.owner_id == old(self).user_id
                    &&& world.theme_id == old(self).request.theme_id
                    &&& world.character_mode@ == mode_text(old(self).request.character_mode)
                    &&& world.invite_code is None
                },
                (CreateWorldPhase::AwaitCreate { world_id }, Some(StoreReply::Done)) => {
                    &&& final(self).phase is AwaitRead
                    &&& s == Step::<World>::Call(StoreCall::GetWorld { world_id })
                },
                (CreateWorldPhase::AwaitRead, Some(StoreReply::World(Some(row)))) => {
                    final(self).phase is Finished && answers_outcome(s, world_outcome(row))
                },
                (_, Some(StoreReply::Failed(m))) => final(self).phase is Finished && store_failure(s, m@),
                _ => true,
            },
    {
        let mut phase = CreateWorldPhase::Finished;
        std::mem::swap(&mut phase, &mut self.phase);
        match (phase, reply) {
            (CreateWorldPhase::Start, _) => {
                let world = plan_world(&self.request, self.user_id);
                self.phase = CreateWorldPhase::AwaitCreate { world_id: world.id };
                Step::Call(StoreCall::CreateWorld { world })
            },
            (CreateWorldPhase::AwaitCreate { world_id }, Some(StoreReply::Done)) => {
                self.phase = CreateWorldPhase::AwaitRead;
                Step::Call(StoreCall::GetWorld { world_id })
            },
            (CreateWorldPhase::AwaitRead, Some(StoreReply::World(row))) => Step::Answer(created_world(row)),
            (_, Some(StoreReply::Failed(m))) => fail(m),
            _ => vstd::pervasive::unreached(),
        }
    }
}

/// Where a one-question handler stands.
#[derive(Clone, Copy, Debug, PartialEq, Eq, Structural)]
pub enum OneCallPhase {
    Start,
    AwaitReply,
    Finished,
}

/// Lists the worlds the user is a member of.
#[derive(Clone, Debug)]
pub struct ListWorldsFlow {
    pub user_id: u128,
    pub phase: OneCallPhase,
}

impl ListWorldsFlow {
    pub fn new(user_id: u128) -> (f: ListWorldsFlow)
        ensures
            f.user_id == user_id,
            f.phase == OneCallPhase::Start,
    {
        ListWorldsFlow { user_id, phase: OneCallPhase::Start }
    }

    /// Whether `reply` is what the flow waits for.
    pub open spec fn accepts(&self, reply: Option<StoreReply>) -> bool {
        match self.phase {
            OneCallPhase::Start => reply is None,
            OneCallPhase::AwaitReply => reply matches Some(r) && (r is Worlds || r is Failed),
            OneCallPhase::Finished => false,
        }
    }

    pub fn expects(&self, reply: &Option<StoreReply>) -> (b: bool)
        ensures
            b == self.accepts(*reply),
    {
        match self.phase {
            OneCallPhase::Start => reply.is_none(),
            OneCallPhase::AwaitReply => match reply {
                Some(StoreReply::Worlds(_)) | Some(StoreReply::Failed(_)) => true,
                _ => false,
            },
            OneCallPhase::Finished => false,
        }
    }

    pub fn next(&mut self, reply: Option<StoreReply>) -> (s: Step<Vec<World>>)
        requires
            old(self).accepts(reply),
        ensures
            final(self).user_id == old(self).user_id,
            match (old(self).phase, reply) {
                (OneCallPhase::Start, _) => final(self).phase == OneCallPhase::AwaitReply && s
                    == Step::<Vec<World>>::Call(StoreCall::ListWorldsForUser { user_id: old(self).user_id }),
                (OneCallPhase::AwaitReply, Some(StoreReply::Worlds(rows))) => final(self).phase
                    == OneCallPhase::Finished && answers_list(s, read_all(rows@, |r: WorldRow| world_outcome(r))),
                (_, Some(StoreReply::Failed(m))) => final(self).phase == OneCallPhase::Finished && store_failure(s, m@),
                _ => true,
            },
    {
        let phase = self.phase;
        self.phase = OneCallPhase::Finished;
        match (phase, reply) {
            (OneCallPhase::Start, _) => {
                self.phase = OneCallPhase::AwaitReply;
                Step::Call(StoreCall::ListWorldsForUser { user_id: self.user_id })
            },
            (OneCallPhase::AwaitReply, Some(StoreReply::Worlds(rows))) => Step::Answer(worlds_from_rows(&rows)),
            (_, Some(StoreReply::Failed(m))) => fail(m),
            _ => vstd::pervasive::unreached(),
        }
    }
}

/// Where a join stands.
#[derive(Clone, Debug)]
pub enum JoinWorldPhase {
    Start,
    AwaitWorld,
    AwaitJoin { world: WorldRow },
    Finished,
}

/// Joins a world: a world that exists takes the user as a member (again,
/// if already one) and is answered.
#[derive(Clone, Debug)]
pub struct JoinWorldFlow {
    pub user_id: u128,
    pub world_id: u128,
    pub phase: JoinWorldPhase,
}

impl JoinWorldFlow {
    pub fn new(user_id: u128, world_id: u128) -> (f: JoinWorldFlow)
        ensures
            f.user_id == user_id,
            f.world_id == world_id,
            f.phase is Start,
    {
        JoinWorldFlow { user_id, world_id, phase: JoinWorldPhase::Start }
    }

    /// Whether `reply` is what the flow waits for.
    pub open spec fn accepts(&self, reply: Option<StoreReply>) -> bool {
        match self.phase {
            JoinWorldPhase::Start => reply is None,
            JoinWorldPhase::AwaitWorld => reply matches Some(r) && (r is World || r is Failed),
            JoinWorldPhase::AwaitJoin { .. } => reply matches Some(r) && (r is Done || r is Failed),
            JoinWorldPhase::Finished => false,
        }
    }

    pub fn expects(&self, reply: &Option<StoreReply>) -> (b: bool)
        ensures
            b == self.accepts(*reply),
    {
        match self.phase {
            JoinWorldPhase::Start => reply.is_none(),
            JoinWorldPhase::AwaitWorld => match reply {
                Some(StoreReply::World(_)) | Some(StoreReply::Failed(_)) => true,
                _ => false,
            },
            JoinWorldPhase::AwaitJoin { .. } => match reply {
                Some(StoreReply::Done) | Some(StoreReply::Failed(_)) => true,
                _ => false,
            },
            JoinWorldPhase::Finished => false,
        }
    }

    pub fn next(&mut self, reply: Option<StoreReply>) -> (s: Step<World>)
        requires
            old(self).accepts(reply),
        ensures
            final(self).user_id == old(self).user_id,
            final(self).world_id == old(self).world_id,
            match (old(self).phase, reply) {
                (JoinWorldPhase::Start, _) => final(self).phase is AwaitWorld && s == Step::<World>::Call(
                    StoreCall::GetWorld { world_id: old(self).world_id },
                ),
                (JoinWorldPhase::AwaitWorld, Some(StoreReply::World(row))) => match row {
                    None => final(self).phase is Finished && refusal(s, STATUS_NOT_FOUND, "World not found"@),
                    Some(w) => final(self).phase == (JoinWorldPhase::AwaitJoin { world: w }) && s
                        == Step::<World>::Call(
                        StoreCall::AddWorldMember { world_id: old(self).world_id, user_id: old(self).user_id },
                    ),
                },
                (JoinWorldPhase::AwaitJoin { world }, Some(StoreReply::Done)) => final(self).phase is Finished
                    && answers_outcome(s, world_outcome(world)),
                (_, Some(StoreReply::Failed(m))) => final(self).phase is Finished && store_failure(s, m@),
                _ => true,
            },
    {
        let mut phase = JoinWorldPhase::Finished;
        std::mem::swap(&mut phase, &mut self.phase);
        match (phase, reply) {
            (JoinWorldPhase::Start, _) => {
                self.phase = JoinWorldPhase::AwaitWorld;
                Step::Call(StoreCall::GetWorld { world_id: self.world_id })
            },
            (JoinWorldPhase::AwaitWorld, Some(StoreReply::World(row))) => match require_world(row) {
                Err(e) => Step::Answer(Err(e)),
                Ok(world) => {
                    self.phase = JoinWorldPhase::AwaitJoin { world };
                    Step::Call(StoreCall::AddWorldMember { world_id: self.world_id, user_id: self.user_id })
                },
            },
            (JoinWorldPhase::AwaitJoin { world }, Some(StoreReply::Done)) => Step::Answer(world_from_row(&world)),
            (_, Some(StoreReply::Failed(m))) => fail(m),
            _ => vstd::pervasive::unreached(),
        }
    }
}


// ----------------------------------------------------------------------
// Locations and messages: members only

/// Where a members-only handler stands.
#[derive(Clone, Debug)]
pub enum MemberPhase {
    Start,
    AwaitMembership,
    AwaitWork,
    Finished,
}

/// Whether `reply` answers a membership check.
pub open spec fn membership_reply(reply: Option<StoreReply>) -> bool {
    reply matches Some(r) && (r is Flag || r is Failed)
}

/// Creates a location in a world, for a member of it.
#[derive(Clone, Debug)]
pub struct CreateLocationFlow {
    pub user_id: u128,
    pub world_id: u128,
    pub request: CreateLocationRequest,
    pub location: Option<Location>,
    pub phase: MemberPhase,
}

impl CreateLocationFlow {
    pub fn new(user_id: u128, world_id: u128, request: CreateLocationRequest) -> (f: CreateLocationFlow)
        ensures
            f.user_id == user_id,
            f.world_id == world_id,
            f.request == request,
            f.location is None,
            f.phase is Start,
    {
        CreateLocationFlow { user_id, world_id, request, location: None, phase: MemberPhase::Start }
    }

    /// Whether `reply` is what the flow waits for.
    pub open spec fn accepts(&self, reply: Option<StoreReply>) -> bool {
        match self.phase {
            MemberPhase::Start => reply is None,
            MemberPhase::AwaitMembership => membership_reply(reply),
            MemberPhase::AwaitWork => {
                &&& self.location is Some
                &&& reply matches Some(r)
                &&& (r is Done || r is Failed)
            },
            MemberPhase::Finished => false,
        }
    }

    pub fn expects(&self, reply: &Option<StoreReply>) -> (b: bool)
        ensures
            b == self.accepts(*reply),
    {
        match self.phase {
            MemberPhase::Start => reply.is_none(),
            MemberPhase::AwaitMembership => match reply {
                Some(StoreReply::Flag(_)) | Some(StoreReply::Failed(_)) => true,
                _ => false,
            },
            MemberPhase::AwaitWork => self.location.is_some() && match reply {
                Some(StoreReply::Done) | Some(StoreReply::Failed(_)) => true,
                _ => false,
            },
            MemberPhase::Finished => false,
        }
    }

    pub fn next(&mut self, reply: Option<StoreReply>) -> (s: Step<Location>)
        requires
            old(self).accepts(reply),
        ensures
            final(self).user_id == old(self).user_id,
            final(self).world_id == old(self).world_id,
            final(self).request == old(self).request,
            match (old(self).phase, reply) {
                (MemberPhase::Start, _) => final(self).phase is AwaitMembership && s == Step::<Location>::Call(
                    StoreCall::IsWorldMember { world_id: old(self).world_id, user_id: old(self).user_id },
                ),
                (MemberPhase::AwaitMembership, Some(StoreReply::Flag(member))) => if member {
                    &&& final(self).phase is AwaitWork
                    &&& final(self).location matches Some(l)
                    &&& l.world_id == old(self).world_id
                    &&& l.name == old(self).request.name
                    &&& s == Step::<Location>::Call(
                        StoreCall::CreateLocation { id: l.id, world_id: l.world_id, name: l.name },
                    )
                } else {
                    final(self).phase is Finished && refusal(s, STATUS_FORBIDDEN, "Not a member"@)
                },
                (MemberPhase::AwaitWork, Some(StoreReply::Done)) => final(self).phase is Finished && s
                    == Step::<Location>::Answer(Ok(old(self).location->Some_0)),
                (_, Some(StoreReply::Failed(m))) => final(self).phase is Finished && store_failure(s, m@),
                _ => true,
            },
    {
        let mut phase = MemberPhase::Finished;
        std::mem::swap(&mut phase, &mut self.phase);
        match (phase, reply) {
            (MemberPhase::Start, _) => {
                self.phase = MemberPhase::AwaitMembership;
                Step::Call(StoreCall::IsWorldMember { world_id: self.world_id, user_id: self.user_id })
            },
            (MemberPhase::AwaitMembership, Some(StoreReply::Flag(member))) => match require_member(member) {
                Err(e) => Step::Answer(Err(e)),
                Ok(()) => {
                    let l = plan_location(self.world_id, &self.request);
                    let call = StoreCall::CreateLocation { id: l.id, world_id: l.world_id, name: l.name.clone() };
                    self.location = Some(l);
                    self.phase = MemberPhase::AwaitWork;
                    Step::Call(call)
                },
            },
            (MemberPhase::AwaitWork, Some(StoreReply::Done)) => {
                let mut l = None;
                std::mem::swap(&mut l, &mut self.location);
                match l {
                    Some(loc) => Step::Answer(Ok(loc)),
                    None => vstd::pervasive::unreached(),
                }
            },
            (_, Some(StoreReply::Failed(m))) => fail(m),
            _ => vstd::pervasive::unreached(),
        }
    }
}

/// Lists the locations of a world, for a member of it.
#[derive(Clone, Debug)]
pub struct ListLocationsFlow {
    pub user_id: u128,
    pub world_id: u128,
    pub phase: MemberPhase,
}

impl ListLocationsFlow {
    pub fn new(user_id: u128, world_id: u128) -> (f: ListLocationsFlow)
        ensures
            f.user_id == user_id,
            f.world_id == world_id,
            f.phase is Start,
    {
        ListLocationsFlow { user_id, world_id, phase: MemberPhase::Start }
    }

    /// Whether `reply` is what the flow waits for.
    pub open spec fn accepts(&self, reply: Option<StoreReply>) -> bool {
        match self.phase {
            MemberPhase::Start => reply is None,
            MemberPhase::AwaitMembership => membership_reply(reply),
            MemberPhase::AwaitWork => reply matches Some(r) && (r is Locations || r is Failed),
            MemberPhase::Finished => false,
        }
    }

    pub fn expects(&self, reply: &Option<StoreReply>) -> (b: bool)
        ensures
            b == self.accepts(*reply),
    {
        match self.phase {
            MemberPhase::Start => reply.is_none(),
            MemberPhase::AwaitMembership => match reply {
                Some(StoreReply::Flag(_)) | Some(StoreReply::Failed(_)) => true,
                _ => false,
            },
            MemberPhase::AwaitWork => match reply {
                Some(StoreReply::Locations(_)) | Some(StoreReply::Failed(_)) => true,
                _ => false,
            },
            MemberPhase::Finished => false,
        }
    }

    pub fn next(&mut self, reply: Option<StoreReply>) -> (s: Step<Vec<Location>>)
        requires
            old(self).accepts(reply),
        ensures
            final(self).user_id == old(self).user_id,
            final(self).world_id == old(self).world_id,
            match (old(self).phase, reply) {
                (MemberPhase::Start, _) => final(self).phase is AwaitMembership && s == Step::<
                    Vec<Location>,
                >::Call(StoreCall::IsWorldMember { world_id: old(self).world_id, user_id: old(self).user_id }),
                (MemberPhase::AwaitMembership, Some(StoreReply::Flag(member))) => if member {
                    final(self).phase is AwaitWork && s == Step::<Vec<Location>>::Call(
                        StoreCall::ListLocations { world_id: old(self).world_id },
                    )
                } else {
                    final(self).phase is Finished && refusal(s, STATUS_FORBIDDEN, "Not a member"@)
                },
                (MemberPhase::AwaitWork, Some(StoreReply::Locations(rows))) => final(self).phase is Finished
                    && answers_list(s, read_all(rows@, |r: LocationRow| location_outcome(r))),
                (_, Some(StoreReply::Failed(m))) => final(self).phase is Finished && store_failure(s, m@),
                _ => true,
            },
    {
        let mut phase = MemberPhase::Finished;
        std::mem::swap(&mut phase, &mut self.phase);
        match (phase, reply) {
            (MemberPhase::Start, _) => {
                self.phase = MemberPhase::AwaitMembership;
                Step::Call(StoreCall::IsWorldMember { world_id: self.world_id, user_id: self.user_id })
            },
            (MemberPhase::AwaitMembership, Some(StoreReply::Flag(member))) => match require_member(member) {
                Err(e) => Step::Answer(Err(e)),
                Ok(()) => {
                    self.phase = MemberPhase::AwaitWork;
                    Step::Call(StoreCall::ListLocations { world_id: self.world_id })
                },
            },
            (MemberPhase::AwaitWork, Some(StoreReply::Locations(rows))) => Step::Answer(locations_from_rows(&rows)),
            (_, Some(StoreReply::Failed(m))) => fail(m),
            _ => vstd::pervasive::unreached(),
        }
    }
}

/// Answers the newest messages of a location (at most `HISTORY_LIMIT`,
/// oldest first), for a member of the world. The membership checked is the
/// world's; the location is not checked to be in it.
#[derive(Clone, Debug)]
pub struct MessagesFlow {
    pub user_id: u128,
    pub world_id: u128,
    pub location_id: u128,
    pub phase: MemberPhase,
}

impl MessagesFlow {
    pub fn new(user_id: u128, world_id: u128, location_id: u128) -> (f: MessagesFlow)
        ensures
            f.user_id == user_id,
            f.world_id == world_id,
            f.location_id == location_id,
            f.phase is Start,
    {
        MessagesFlow { user_id, world_id, location_id, phase: MemberPhase::Start }
    }

    /// Whether `reply` is what the flow waits for.
    pub open spec fn accepts(&self, reply: Option<StoreReply>) -> bool {
        match self.phase {
            MemberPhase::Start => reply is None,
            MemberPhase::AwaitMembership => membership_reply(reply),
            MemberPhase::AwaitWork => reply matches Some(r) && (r is Messages || r is Failed),
            MemberPhase::Finished => false,
        }
    }

    pub fn expects(&self, reply: &Option<StoreReply>) -> (b: bool)
        ensures
            b == self.accepts(*reply),
    {
        match self.phase {
            MemberPhase::Start => reply.is_none(),
            MemberPhase::AwaitMembership => match reply {
                Some(StoreReply::Flag(_)) | Some(StoreReply::Failed(_)) => true,
                _ => false,
            },
            MemberPhase::AwaitWork => match reply {
                Some(StoreReply::Messages(_)) | Some(StoreReply::Failed(_)) => true,
                _ => false,
            },
            MemberPhase::Finished => false,
        }
    }

    pub fn next(&mut self, reply: Option<StoreReply>) -> (s: Step<Vec<ChatMessage>>)
        requires
            old(self).accepts(reply),
        ensures
            final(self).user_id == old(self).user_id,
            final(self).world_id == old(self).world_id,
            final(self).location_id == old(self).location_id,
            match (old(self).phase, reply) {
                (MemberPhase::Start, _) => final(self).phase is AwaitMembership && s == Step::<
                    Vec<ChatMessage>,
                >::Call(StoreCall::IsWorldMember { world_id: old(self).world_id, user_id: old(self).user_id }),
                (MemberPhase::AwaitMembership, Some(StoreReply::Flag(member))) => if member {
                    final(self).phase is AwaitWork && s == Step::<Vec<ChatMessage>>::Call(
                        StoreCall::FetchMessages { location_id: old(self).location_id, limit: HISTORY_LIMIT },
                    )
                } else {
                    final(self).phase is Finished && refusal(s, STATUS_FORBIDDEN, "Not a member"@)
                },
                (MemberPhase::AwaitWork, Some(StoreReply::Messages(rows))) => final(self).phase is Finished
                    && answers_list(s, read_all_reversed(rows@, |r: MessageRow| message_outcome(r))),
                (_, Some(StoreReply::Failed(m))) => final(self).phase is Finished && store_failure(s, m@),
                _ => true,
            },
    {
        let mut phase = MemberPhase::Finished;
        std::mem::swap(&mut phase, &mut self.phase);
        match (phase, reply) {
            (MemberPhase::Start, _) => {
                self.phase = MemberPhase::AwaitMembership;
                Step::Call(StoreCall::IsWorldMember { world_id: self.world_id, user_id: self.user_id })
            },
            (MemberPhase::AwaitMembership, Some(StoreReply::Flag(member))) => match require_member(member) {
                Err(e) => Step::Answer(Err(e)),
                Ok(()) => {
                    self.phase = MemberPhase::AwaitWork;
                    Step::Call(StoreCall::FetchMessages { location_id: self.location_id, limit: HISTORY_LIMIT })
                },
            },
            (MemberPhase::AwaitWork, Some(StoreReply::Messages(rows))) => Step::Answer(messages_from_rows(&rows)),
            (_, Some(StoreReply::Failed(m))) => fail(m),
            _ => vstd::pervasive::unreached(),
        }
    }
}

// ----------------------------------------------------------------------
// Friendships and direct messages

/// Where a friend request stands.
#[derive(Clone, Debug)]
pub enum SendRequestPhase {
    Start,
    AwaitTarget,
    AwaitExisting { target: u128 },
    AwaitCreate { target: u128 },
    AwaitRead { target: u128 },
    Finished,
}

/// Asks another user, by name, for friendship: refuses an unknown name, the
/// user's own name, and a pair that has a friendship already (either way
/// round); stores a pending friendship, reads it back, and answers with it
/// and with the addressee to tell.
#[derive(Clone, Debug)]
pub struct SendRequestFlow {
    pub user_id: u128,
    pub username: String,
    pub phase: SendRequestPhase,
}

impl SendRequestFlow {
    pub fn new(user_id: u128, username: String) -> (f: SendRequestFlow)
        ensures
            f.user_id == user_id,
            f.username == username,
            f.phase is Start,
    {
        SendRequestFlow { user_id, username, phase: SendRequestPhase::Start }
    }

    /// Whether `reply` is what the flow waits for.
    pub open spec fn accepts(&self, reply: Option<StoreReply>) -> bool {
        match self.phase {
            SendRequestPhase::Start => reply is None,
            SendRequestPhase::AwaitTarget => reply matches Some(r) && (r is User || r is Failed),
            SendRequestPhase::AwaitExisting { .. } => reply matches Some(r) && (r is Friendship || r is Failed),
            SendRequestPhase::AwaitCreate { .. } => reply matches Some(r) && (r is Done || r is Failed),
            SendRequestPhase::AwaitRead { .. } => reply matches Some(r) && (r is Friendship || r is Failed),
            SendRequestPhase::Finished => false,
        }
    }

    pub fn expects(&self, reply: &Option<StoreReply>) -> (b: bool)
        ensures
            b == self.accepts(*reply),
    {
        match self.phase {
            SendRequestPhase::Start => reply.is_none(),
            SendRequestPhase::AwaitTarget => match reply {
                Some(StoreReply::User(_)) | Some(StoreReply::Failed(_)) => true,
                _ => false,
            },
            SendRequestPhase::AwaitExisting { .. } | SendRequestPhase::AwaitRead { .. } => match reply {
                Some(StoreReply::Friendship(_)) | Some(StoreReply::Failed(_)) => true,
                _ => false,
            },
            SendRequestPhase::AwaitCreate { .. } => match reply {
                Some(StoreReply::Done) | Some(StoreReply::Failed(_)) => true,
                _ => false,
            },
            SendRequestPhase::Finished => false,
        }
    }

    pub fn next(&mut self, reply: Option<StoreReply>) -> (s: Step<FriendNotice>)
        requires
            old(self).accepts(reply),
        ensures
            final(self).user_id == old(self).user_id,
            final(self).username == old(self).username,
            match (old(self).phase, reply) {
                (SendRequestPhase::Start, _) => final(self).phase is AwaitTarget && s == Step::<
                    FriendNotice,
                >::Call(StoreCall::FindUserByUsername { username: old(self).username }),
                (SendRequestPhase::AwaitTarget, Some(StoreReply::User(row))) => match target_outcome(
                    old(self).user_id,
                    row,
                ) {
                    Ok(target) => {
                        &&& final(self).phase == (SendRequestPhase::AwaitExisting { target })
                        &&& s == Step::<FriendNotice>::Call(
                            StoreCall::FindFriendship { user_a: old(self).user_id, user_b: target },
                        )
                    },
                    Err((status, m)) => final(self).phase is Finished && refusal(s, status, m),
                },
                (SendRequestPhase::AwaitExisting { target }, Some(StoreReply::Friendship(existing))) => match existing {
                    Some(_) => final(self).phase is Finished && refusal(
                        s,
                        STATUS_CONFLICT,
                        "Friend request already exists"@,
                    ),
                    None => {
                        &&& final(self).phase == (SendRequestPhase::AwaitCreate { target })
                        &&& s matches Step::Call(StoreCall::CreateFriendRequest { request })
                        &&& request.requester_id == old(self).user_id
                        &&& request.addressee_id == target
                    },
                },
                (SendRequestPhase::AwaitCreate { target }, Some(StoreReply::Done)) => {
                    &&& final(self).phase == (SendRequestPhase::AwaitRead { target })
                    &&& s == Step::<FriendNotice>::Call(
                        StoreCall::FindFriendship { user_a: old(self).user_id, user_b: target },
                    )
                },
                (SendRequestPhase::AwaitRead { target }, Some(StoreReply::Friendship(row))) => {
                    &&& final(self).phase is Finished
                    &&& match row {
                        None => refusal(s, STATUS_INTERNAL, "Failed to fetch friendship"@),
                        Some(f) => match (s, friendship_outcome(f)) {
                            (Step::Answer(Ok(n)), Ok(m)) => n.request == m && n.notify == target,
                            (Step::Answer(Err(e)), Err(m)) => e.status == STATUS_INTERNAL && e.message@ == m,
                            _ => false,
                        },
                    }
                },
                (_, Some(StoreReply::Failed(m))) => final(self).phase is Finished && store_failure(s, m@),
                _ => true,
            },
    {
        let mut phase = SendRequestPhase::Finished;
        std::mem::swap(&mut phase, &mut self.phase);
        match (phase, reply) {
            (SendRequestPhase::Start, _) => {
                self.phase = SendRequestPhase::AwaitTarget;
                Step::Call(StoreCall::FindUserByUsername { username: self.username.clone() })
            },
            (SendRequestPhase::AwaitTarget, Some(StoreReply::User(row))) => match friend_target(self.user_id, row) {
                Err(e) => Step::Answer(Err(e)),
                Ok(target) => {
                    self.phase = SendRequestPhase::AwaitExisting { target };
                    Step::Call(StoreCall::FindFriendship { user_a: self.user_id, user_b: target })
                },
            },
            (SendRequestPhase::AwaitExisting { target }, Some(StoreReply::Friendship(existing))) => {
                match ensure_no_friendship(&existing) {
                    Err(e) => Step::Answer(Err(e)),
                    Ok(()) => {
                        let request = plan_friend_request(self.user_id, target);
                        self.phase = SendRequestPhase::AwaitCreate { target };
                        Step::Call(StoreCall::CreateFriendRequest { request })
                    },
                }
            },
            (SendRequestPhase::AwaitCreate { target }, Some(StoreReply::Done)) => {
                self.phase = SendRequestPhase::AwaitRead { target };
                Step::Call(StoreCall::FindFriendship { user_a: self.user_id, user_b: target })
            },
            (SendRequestPhase::AwaitRead { target }, Some(StoreReply::Friendship(row))) => match sent_request(row) {
                Err(e) => Step::Answer(Err(e)),
                Ok(request) => Step::Answer(Ok(FriendNotice { request, notify: target })),
            },
            (_, Some(StoreReply::Failed(m))) => fail(m),
            _ => vstd::pervasive::unreached(),
        }
    }
}

/// Accepts a pending friendship addressed to the user, and answers with it
/// and with the requester to tell.
#[derive(Clone, Debug)]
pub struct AcceptFlow {
    pub user_id: u128,
    pub friendship_id: u128,
    pub phase: OneCallPhase,
}

impl AcceptFlow {
    pub fn new(user_id: u128, friendship_id: u128) -> (f: AcceptFlow)
        ensures
            f.user_id == user_id,
            f.friendship_id == friendship_id,
            f.phase == OneCallPhase::Start,
    {
        AcceptFlow { user_id, friendship_id, phase: OneCallPhase::Start }
    }

    /// Whether `reply` is what the flow waits for.
    pub open spec fn accepts(&self, reply: Option<StoreReply>) -> bool {
        match self.phase {
            OneCallPhase::Start => reply is None,
            OneCallPhase::AwaitReply => reply matches Some(r) && (r is Friendship || r is Failed),
            OneCallPhase::Finished => false,
        }
    }

    pub fn expects(&self, reply: &Option<StoreReply>) -> (b: bool)
        ensures
            b == self.accepts(*reply),
    {
        match self.phase {
            OneCallPhase::Start => reply.is_none(),
            OneCallPhase::AwaitReply => match reply {
                Some(StoreReply::Friendship(_)) | Some(StoreReply::Failed(_)) => true,
                _ => false,
            },
            OneCallPhase::Finished => false,
        }
    }

    pub fn next(&mut self, reply: Option<StoreReply>) -> (s: Step<FriendNotice>)
        requires
            old(self).accepts(reply),
        ensures
            final(self).user_id == old(self).user_id,
            final(self).friendship_id == old(self).friendship_id,
            match (old(self).phase, reply) {
                (OneCallPhase::Start, _) => final(self).phase == OneCallPhase::AwaitReply && s == Step::<
                    FriendNotice,
                >::Call(
                    StoreCall::AcceptFriendRequest {
                        friendship_id: old(self).friendship_id,
                        addressee_id: old(self).user_id,
                    },
                ),
                (OneCallPhase::AwaitReply, Some(StoreReply::Friendship(row))) => {
                    &&& final(self).phase == OneCallPhase::Finished
                    &&& match row {
                        None => refusal(s, STATUS_NOT_FOUND, "Request not found"@),
                        Some(f) => match (s, friendship_outcome(f)) {
                            (Step::Answer(Ok(n)), Ok(m)) => n.request == m && n.notify == m.requester_id,
                            (Step::Answer(Err(e)), Err(m)) => e.status == STATUS_INTERNAL && e.message@ == m,
                            _ => false,
                        },
                    }
                },
                (_, Some(StoreReply::Failed(m))) => final(self).phase == OneCallPhase::Finished && store_failure(s, m@),
                _ => true,
            },
    {
        let phase = self.phase;
        self.phase = OneCallPhase::Finished;
        match (phase, reply) {
            (OneCallPhase::Start, _) => {
                self.phase = OneCallPhase::AwaitReply;
                Step::Call(
                    StoreCall::AcceptFriendRequest { friendship_id: self.friendship_id, addressee_id: self.user_id },
                )
            },
            (OneCallPhase::AwaitReply, Some(StoreReply::Friendship(row))) => match accepted_request(row) {
                Err(e) => Step::Answer(Err(e)),
                Ok((request, notify)) => Step::Answer(Ok(FriendNotice { request, notify })),
            },
            (_, Some(StoreReply::Failed(m))) => fail(m),
            _ => vstd::pervasive::unreached(),
        }
    }
}

/// Removes a friendship (or a request) that the user is part of; answers
/// with no content, whether or not there was one.
#[derive(Clone, Debug)]
pub struct RemoveFlow {
    pub user_id: u128,
    pub friendship_id: u128,
    pub phase: OneCallPhase,
}

impl RemoveFlow {
    pub fn new(user_id: u128, friendship_id: u128) -> (f: RemoveFlow)
        ensures
            f.user_id == user_id,
            f.friendship_id == friendship_id,
            f.phase == OneCallPhase::Start,
    {
        RemoveFlow { user_id, friendship_id, phase: OneCallPhase::Start }
    }

    /// Whether `reply` is what the flow waits for.
    pub open spec fn accepts(&self, reply: Option<StoreReply>) -> bool {
        match self.phase {
            OneCallPhase::Start => reply is None,
            OneCallPhase::AwaitReply => reply matches Some(r) && (r is Done || r is Failed),
            OneCallPhase::Finished => false,
        }
    }

    pub fn expects(&self, reply: &Option<StoreReply>) -> (b: bool)
        ensures
            b == self.accepts(*reply),
    {
        match self.phase {
            OneCallPhase::Start => reply.is_none(),
            OneCallPhase::AwaitReply => match reply {
                Some(StoreReply::Done) | Some(StoreReply::Failed(_)) => true,
                _ => false,
            },
            OneCallPhase::Finished => false,
        }
    }

    pub fn next(&mut self, reply: Option<StoreReply>) -> (s: Step<()>)
        requires
            old(self).accepts(reply),
        ensures
            final(self).user_id == old(self).user_id,
            final(self).friendship_id == old(self).friendship_id,
            match (old(self).phase, reply) {
                (OneCallPhase::Start, _) => final(self).phase == OneCallPhase::AwaitReply && s == Step::<()>::Call(
                    StoreCall::DeleteFriendship { friendship_id: old(self).friendship_id, user_id: old(self).user_id },
                ),
                (OneCallPhase::AwaitReply, Some(StoreReply::Done)) => final(self).phase == OneCallPhase::Finished
                    && s == Step::<()>::Answer(Ok(())),
                (_, Some(StoreReply::Failed(m))) => final(self).phase == OneCallPhase::Finished && store_failure(s, m@),
                _ => true,
            },
    {
        let phase = self.phase;
        self.phase = OneCallPhase::Finished;
        match (phase, reply) {
            (OneCallPhase::Start, _) => {
                self.phase = OneCallPhase::AwaitReply;
                Step::Call(StoreCall::DeleteFriendship { friendship_id: self.friendship_id, user_id: self.user_id })
            },
            (OneCallPhase::AwaitReply, Some(StoreReply::Done)) => Step::Answer(Ok(())),
            (_, Some(StoreReply::Failed(m))) => fail(m),
            _ => vstd::pervasive::unreached(),
        }
    }
}

/// Lists the user's friends and pending requests, sorted as `list_friends`
/// sorts them.
#[derive(Clone, Debug)]
pub struct ListFriendsFlow {
    pub user_id: u128,
    pub phase: OneCallPhase,
}

impl ListFriendsFlow {
    pub fn new(user_id: u128) -> (f: ListFriendsFlow)
        ensures
            f.user_id == user_id,
            f.phase == OneCallPhase::Start,
    {
        ListFriendsFlow { user_id, phase: OneCallPhase::Start }
    }

    /// Whether `reply` is what the flow waits for.
    pub open spec fn accepts(&self, reply: Option<StoreReply>) -> bool {
        match self.phase {
            OneCallPhase::Start => reply is None,
            OneCallPhase::AwaitReply => reply matches Some(r) && (r is Friendships || r is Failed),
            OneCallPhase::Finished => false,
        }
    }

    pub fn expects(&self, reply: &Option<StoreReply>) -> (b: bool)
        ensures
            b == self.accepts(*reply),
    {
        match self.phase {
            OneCallPhase::Start => reply.is_none(),
            OneCallPhase::AwaitReply => match reply {
                Some(StoreReply::Friendships(_)) | Some(StoreReply::Failed(_)) => true,
                _ => false,
            },
            OneCallPhase::Finished => false,
        }
    }

    pub fn next(&mut self, reply: Option<StoreReply>) -> (s: Step<FriendsResponse>)
        requires
            old(self).accepts(reply),
        ensures
            final(self).user_id == old(self).user_id,
            match (old(self).phase, reply) {
                (OneCallPhase::Start, _) => final(self).phase == OneCallPhase::AwaitReply && s == Step::<
                    FriendsResponse,
                >::Call(StoreCall::ListFriendships { user_id: old(self).user_id }),
                (OneCallPhase::AwaitReply, Some(StoreReply::Friendships(rows))) => {
                    &&& final(self).phase == OneCallPhase::Finished
                    &&& s matches Step::Answer(r)
                    &&& match (r, sort_friendships(rows@, old(self).user_id)) {
                        (Ok(f), Ok(l)) => f.friends@ == l.0 && f.pending_incoming@ == l.1
                            && f.pending_outgoing@ == l.2,
                        (Err(e), Err(m)) => e.status == STATUS_INTERNAL && e.message@ == m,
                        _ => false,
                    }
                },
                (_, Some(StoreReply::Failed(m))) => final(self).phase == OneCallPhase::Finished && store_failure(s, m@),
                _ => true,
            },
    {
        let phase = self.phase;
        self.phase = OneCallPhase::Finished;
        match (phase, reply) {
            (OneCallPhase::Start, _) => {
                self.phase = OneCallPhase::AwaitReply;
                Step::Call(StoreCall::ListFriendships { user_id: self.user_id })
            },
            (OneCallPhase::AwaitReply, Some(StoreReply::Friendships(rows))) => {
                Step::Answer(list_friends(&rows, self.user_id))
            },
            (_, Some(StoreReply::Failed(m))) => fail(m),
            _ => vstd::pervasive::unreached(),
        }
    }
}

/// Answers the newest direct messages between the user and a friend (at
/// most `HISTORY_LIMIT`, oldest first); those who are not friends are
/// refused.
#[derive(Clone, Debug)]
pub struct DmHistoryFlow {
    pub user_id: u128,
    pub peer_id: u128,
    pub phase: MemberPhase,
}

impl DmHistoryFlow {
    pub fn new(user_id: u128, peer_id: u128) -> (f: DmHistoryFlow)
        ensures
            f.user_id == user_id,
            f.peer_id == peer_id,
            f.phase is Start,
    {
        DmHistoryFlow { user_id, peer_id, phase: MemberPhase::Start }
    }

    /// Whether `reply` is what the flow waits for.
    pub open spec fn accepts(&self, reply: Option<StoreReply>) -> bool {
        match self.phase {
            MemberPhase::Start => reply is None,
            MemberPhase::AwaitMembership => membership_reply(reply),
            MemberPhase::AwaitWork => reply matches Some(r) && (r is Dms || r is Failed),
            MemberPhase::Finished => false,
        }
    }

    pub fn expects(&self, reply: &Option<StoreReply>) -> (b: bool)
        ensures
            b == self.accepts(*reply),
    {
        match self.phase {
            MemberPhase::Start => reply.is_none(),
            MemberPhase::AwaitMembership => match reply {
                Some(StoreReply::Flag(_)) | Some(StoreReply::Failed(_)) => true,
                _ => false,
            },
            MemberPhase::AwaitWork => match reply {
                Some(StoreReply::Dms(_)) | Some(StoreReply::Failed(_)) => true,
                _ => false,
            },
            MemberPhase::Finished => false,
        }
    }

    pub fn next(&mut self, reply: Option<StoreReply>) -> (s: Step<Vec<DirectMessage>>)
        requires
            old(self).accepts(reply),
        ensures
            final(self).user_id == old(self).user_id,
            final(self).peer_id == old(self).peer_id,
            match (old(self).phase, reply) {
                (MemberPhase::Start, _) => final(self).phase is AwaitMembership && s == Step::<
                    Vec<DirectMessage>,
                >::Call(StoreCall::AreFriends { user_a: old(self).user_id, user_b: old(self).peer_id }),
                (MemberPhase::AwaitMembership, Some(StoreReply::Flag(friends))) => if friends {
                    final(self).phase is AwaitWork && s == Step::<Vec<DirectMessage>>::Call(
                        StoreCall::FetchDmHistory {
                            user_a: old(self).user_id,
                            user_b: old(self).peer_id,
                            limit: HISTORY_LIMIT,
                        },
                    )
                } else {
                    final(self).phase is Finished && refusal(s, STATUS_FORBIDDEN, "Not friends"@)
                },
                (MemberPhase::AwaitWork, Some(StoreReply::Dms(rows))) => final(self).phase is Finished
                    && answers_list(s, read_all_reversed(rows@, |r: DmRow| dm_outcome(r))),
                (_, Some(StoreReply::Failed(m))) => final(self).phase is Finished && store_failure(s, m@),
                _ => true,
            },
    {
        let mut phase = MemberPhase::Finished;
        std::mem::swap(&mut phase, &mut self.phase);
        match (phase, reply) {
            (MemberPhase::Start, _) => {
                self.phase = MemberPhase::AwaitMembership;
                Step::Call(StoreCall::AreFriends { user_a: self.user_id, user_b: self.peer_id })
            },
            (MemberPhase::AwaitMembership, Some(StoreReply::Flag(friends))) => match require_friends(friends) {
                Err(e) => Step::Answer(Err(e)),
                Ok(()) => {
                    self.phase = MemberPhase::AwaitWork;
                    Step::Call(
                        StoreCall::FetchDmHistory { user_a: self.user_id, user_b: self.peer_id, limit: HISTORY_LIMIT },
                    )
                },
            },
            (MemberPhase::AwaitWork, Some(StoreReply::Dms(rows))) => Step::Answer(dms_from_rows(&rows)),
            (_, Some(StoreReply::Failed(m))) => fail(m),
            _ => vstd::pervasive::unreached(),
        }
    }
}

} // verus!
