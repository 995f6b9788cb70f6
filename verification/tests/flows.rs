use argon2::password_hash::{PasswordHash, PasswordVerifier};
use argon2::Argon2;

use realm_chat::flows::{
    AcceptFlow, CreateLocationFlow, CreateWorldFlow, DmHistoryFlow, JoinWorldFlow, ListFriendsFlow,
    ListLocationsFlow, ListWorldsFlow, LoginFlow, MessagesFlow, RegisterFlow, RemoveFlow, SendRequestFlow, Step,
    StoreCall, StoreReply,
};
use realm_chat::error::AppError;
use realm_chat::models::CharacterMode;
use realm_chat::protocol::{CreateLocationRequest, CreateWorldRequest, LoginRequest, RegisterRequest};
use realm_chat::rows::{DmRow, FriendshipRow, LocationRow, MessageRow, UserRow, WorldRow};

const A: &str = "67e55044-10b1-426f-9247-bb680e5fe0c8";
const B: &str = "a1a2a3a4-b1b2-c1c2-d1d2-d3d4d5d6d7d8";
const C: &str = "00000000-0000-0000-0000-000000000001";
const T: &str = "2024-03-05T10:20:30Z";

fn id(s: &str) -> u128 {
    uuid::Uuid::parse_str(s).unwrap().as_u128()
}

fn call<T: std::fmt::Debug>(s: Step<T>) -> StoreCall {
    match s {
        Step::Call(c) => c,
        other => panic!("expected a store call, got {:?}", other),
    }
}

fn answer<T: std::fmt::Debug>(s: Step<T>) -> Result<T, AppError> {
    match s {
        Step::Answer(r) => r,
        other => panic!("expected an answer, got {:?}", other),
    }
}

fn refused<T: std::fmt::Debug>(s: Step<T>) -> (u16, String) {
    let e = answer(s).unwrap_err();
    (e.status, e.message)
}

fn world_row() -> WorldRow {
    WorldRow {
        id: A.to_string(),
        name: "Eldoria".to_string(),
        description: "A realm".to_string(),
        owner_id: B.to_string(),
        theme_id: "fantasy".to_string(),
        character_mode: "Local".to_string(),
        invite_code: None,
        created_at: T.to_string(),
    }
}

fn friendship(status: &str) -> FriendshipRow {
    FriendshipRow {
        id: C.to_string(),
        requester_id: A.to_string(),
        requester_name: "alice".to_string(),
        addressee_id: B.to_string(),
        addressee_name: "bob".to_string(),
        status: status.to_string(),
        created_at: T.to_string(),
    }
}

#[test]
fn registration_looks_the_trimmed_name_up_then_stores_a_hash_of_the_password() {
    let mut f = RegisterFlow::new(RegisterRequest { username: "  alice ".to_string(), password: "secret1".to_string() });
    assert!(f.expects(&None));
    match call(f.next(None)) {
        StoreCall::FindUserByUsername { username } => assert_eq!(username, "alice"),
        other => panic!("{:?}", other),
    }
    let reply = Some(StoreReply::User(None));
    assert!(f.expects(&reply));
    let (new_id, hash) = match call(f.next(reply)) {
        StoreCall::CreateUser { id, username, password_hash } => {
            assert_eq!(username, "alice");
            (id, password_hash)
        }
        other => panic!("{:?}", other),
    };
    let parsed = PasswordHash::new(&hash).unwrap();
    assert!(Argon2::default().verify_password(b"secret1", &parsed).is_ok());
    assert!(Argon2::default().verify_password(b"secret2", &parsed).is_err());
    let who = answer(f.next(Some(StoreReply::Done))).unwrap();
    assert_eq!(who.user_id, new_id);
    assert_eq!(who.username, "alice");
    assert!(!f.expects(&None));
}

#[test]
fn a_bad_registration_form_asks_the_store_nothing() {
    let mut f = RegisterFlow::new(RegisterRequest { username: "bob".to_string(), password: "12345".to_string() });
    assert_eq!(refused(f.next(None)), (400, "Password too short".to_string()));
    let mut f = RegisterFlow::new(RegisterRequest { username: " ".to_string(), password: "123456".to_string() });
    assert_eq!(refused(f.next(None)), (400, "Invalid username".to_string()));
}

#[test]
fn registration_of_a_taken_name_is_a_conflict() {
    let mut f = RegisterFlow::new(RegisterRequest { username: "alice".to_string(), password: "secret1".to_string() });
    call(f.next(None));
    let row = UserRow { id: A.to_string(), username: "alice".to_string(), password_hash: String::new(), created_at: T.to_string() };
    let reply = Some(StoreReply::User(Some(row)));
    assert_eq!(refused(f.next(reply)), (409, "Username already taken".to_string()));
}

#[test]
fn a_store_failure_is_answered_with_its_text() {
    let mut f = RegisterFlow::new(RegisterRequest { username: "alice".to_string(), password: "secret1".to_string() });
    call(f.next(None));
    assert!(!f.expects(&Some(StoreReply::Done)));
    let reply = Some(StoreReply::Failed("database is locked".to_string()));
    assert!(f.expects(&reply));
    assert_eq!(refused(f.next(reply)), (500, "database is locked".to_string()));
}

#[test]
fn login_looks_the_name_up_as_typed() {
    let mut f = LoginFlow::new(LoginRequest { username: " alice".to_string(), password: "pw".to_string() });
    match call(f.next(None)) {
        StoreCall::FindUserByUsername { username } => assert_eq!(username, " alice"),
        other => panic!("{:?}", other),
    }
    assert_eq!(refused(f.next(Some(StoreReply::User(None)))), (401, "Invalid credentials".to_string()));
}

#[test]
fn a_created_world_is_stored_then_read_back() {
    let req = CreateWorldRequest {
        name: "Eldoria".to_string(),
        description: "A realm".to_string(),
        theme_id: "fantasy".to_string(),
        character_mode: CharacterMode::Local,
    };
    let mut f = CreateWorldFlow::new(7, req);
    let world_id = match call(f.next(None)) {
        StoreCall::CreateWorld { world } => {
            assert_eq!(world.owner_id, 7);
            assert_eq!(world.character_mode, "Local");
            world.id
        }
        other => panic!("{:?}", other),
    };
    match call(f.next(Some(StoreReply::Done))) {
        StoreCall::GetWorld { world_id: w } => assert_eq!(w, world_id),
        other => panic!("{:?}", other),
    }
    assert!(!f.expects(&Some(StoreReply::World(None))));
    let w = answer(f.next(Some(StoreReply::World(Some(world_row()))))).unwrap();
    assert_eq!(w.name, "Eldoria");
    assert_eq!(w.character_mode, CharacterMode::Local);
}

#[test]
fn worlds_are_listed_for_their_member() {
    let mut f = ListWorldsFlow::new(9);
    match call(f.next(None)) {
        StoreCall::ListWorldsForUser { user_id } => assert_eq!(user_id, 9),
        other => panic!("{:?}", other),
    }
    let ws = answer(f.next(Some(StoreReply::Worlds(vec![world_row(), world_row()])))).unwrap();
    assert_eq!(ws.len(), 2);
    assert_eq!(ws[0].id, id(A));
}

#[test]
fn joining_needs_the_world_to_exist() {
    let mut f = JoinWorldFlow::new(9, id(A));
    call(f.next(None));
    assert_eq!(refused(f.next(Some(StoreReply::World(None)))), (404, "World not found".to_string()));

    let mut f = JoinWorldFlow::new(9, id(A));
    call(f.next(None));
    match call(f.next(Some(StoreReply::World(Some(world_row()))))) {
        StoreCall::AddWorldMember { world_id, user_id } => assert_eq!((world_id, user_id), (id(A), 9)),
        other => panic!("{:?}", other),
    }
    assert_eq!(answer(f.next(Some(StoreReply::Done))).unwrap().name, "Eldoria");
}

#[test]
fn only_a_member_creates_a_location() {
    let req = CreateLocationRequest { name: "tavern".to_string() };
    let mut f = CreateLocationFlow::new(9, 5, req.clone());
    match call(f.next(None)) {
        StoreCall::IsWorldMember { world_id, user_id } => assert_eq!((world_id, user_id), (5, 9)),
        other => panic!("{:?}", other),
    }
    assert_eq!(refused(f.next(Some(StoreReply::Flag(false)))), (403, "Not a member".to_string()));

    let mut f = CreateLocationFlow::new(9, 5, req);
    call(f.next(None));
    let new_id = match call(f.next(Some(StoreReply::Flag(true)))) {
        StoreCall::CreateLocation { id, world_id, name } => {
            assert_eq!((world_id, name.as_str()), (5, "tavern"));
            id
        }
        other => panic!("{:?}", other),
    };
    let l = answer(f.next(Some(StoreReply::Done))).unwrap();
    assert_eq!((l.id, l.world_id, l.name.as_str()), (new_id, 5, "tavern"));
}

#[test]
fn locations_are_listed_for_a_member() {
    let mut f = ListLocationsFlow::new(9, id(A));
    call(f.next(None));
    match call(f.next(Some(StoreReply::Flag(true)))) {
        StoreCall::ListLocations { world_id } => assert_eq!(world_id, id(A)),
        other => panic!("{:?}", other),
    }
    let rows = vec![LocationRow { id: C.to_string(), world_id: A.to_string(), name: "forge".to_string() }];
    let ls = answer(f.next(Some(StoreReply::Locations(rows)))).unwrap();
    assert_eq!((ls[0].id, ls[0].name.as_str()), (1, "forge"));
}

fn message(content: &str) -> MessageRow {
    MessageRow {
        id: C.to_string(),
        world_id: A.to_string(),
        location_id: B.to_string(),
        sender_id: A.to_string(),
        sender_name: "alice".to_string(),
        content: content.to_string(),
        timestamp: T.to_string(),
    }
}

#[test]
fn message_history_asks_for_the_newest_hundred_and_answers_oldest_first() {
    let mut f = MessagesFlow::new(9, id(A), id(B));
    call(f.next(None));
    match call(f.next(Some(StoreReply::Flag(true)))) {
        StoreCall::FetchMessages { location_id, limit } => assert_eq!((location_id, limit), (id(B), 100)),
        other => panic!("{:?}", other),
    }
    let ms = answer(f.next(Some(StoreReply::Messages(vec![message("newer"), message("older")])))).unwrap();
    assert_eq!(ms[0].content, "older");
    assert_eq!(ms[1].content, "newer");
}

fn user(uid: &str) -> UserRow {
    UserRow { id: uid.to_string(), username: "bob".to_string(), password_hash: String::new(), created_at: T.to_string() }
}

#[test]
fn a_friend_request_is_stored_read_back_and_told_to_its_addressee() {
    let mut f = SendRequestFlow::new(id(A), "bob".to_string());
    match call(f.next(None)) {
        StoreCall::FindUserByUsername { username } => assert_eq!(username, "bob"),
        other => panic!("{:?}", other),
    }
    match call(f.next(Some(StoreReply::User(Some(user(B)))))) {
        StoreCall::FindFriendship { user_a, user_b } => assert_eq!((user_a, user_b), (id(A), id(B))),
        other => panic!("{:?}", other),
    }
    match call(f.next(Some(StoreReply::Friendship(None)))) {
        StoreCall::CreateFriendRequest { request } => {
            assert_eq!((request.requester_id, request.addressee_id), (id(A), id(B)))
        }
        other => panic!("{:?}", other),
    }
    match call(f.next(Some(StoreReply::Done))) {
        StoreCall::FindFriendship { user_a, user_b } => assert_eq!((user_a, user_b), (id(A), id(B))),
        other => panic!("{:?}", other),
    }
    let sent = answer(f.next(Some(StoreReply::Friendship(Some(friendship("pending")))))).unwrap();
    assert_eq!(sent.notify, id(B));
    assert_eq!(sent.request.id, 1);
    assert_eq!(sent.request.addressee_name, "bob");
}

#[test]
fn a_friend_request_is_refused_for_unknown_self_or_existing() {
    let mut f = SendRequestFlow::new(id(A), "nobody".to_string());
    call(f.next(None));
    assert_eq!(refused(f.next(Some(StoreReply::User(None)))), (404, "User not found".to_string()));

    let mut f = SendRequestFlow::new(id(A), "alice".to_string());
    call(f.next(None));
    assert_eq!(refused(f.next(Some(StoreReply::User(Some(user(A)))))), (400, "Cannot add yourself".to_string()));

    let mut f = SendRequestFlow::new(id(A), "bob".to_string());
    call(f.next(None));
    call(f.next(Some(StoreReply::User(Some(user(B))))));
    let reply = Some(StoreReply::Friendship(Some(friendship("pending"))));
    assert_eq!(refused(f.next(reply)), (409, "Friend request already exists".to_string()));
}

#[test]
fn a_friend_request_that_cannot_be_read_back_is_an_internal_error() {
    let mut f = SendRequestFlow::new(id(A), "bob".to_string());
    call(f.next(None));
    call(f.next(Some(StoreReply::User(Some(user(B))))));
    call(f.next(Some(StoreReply::Friendship(None))));
    call(f.next(Some(StoreReply::Done)));
    assert_eq!(refused(f.next(Some(StoreReply::Friendship(None)))), (500, "Failed to fetch friendship".to_string()));
}

#[test]
fn an_accepted_request_is_told_to_its_requester() {
    let mut f = AcceptFlow::new(id(B), 1);
    match call(f.next(None)) {
        StoreCall::AcceptFriendRequest { friendship_id, addressee_id } => {
            assert_eq!((friendship_id, addressee_id), (1, id(B)))
        }
        other => panic!("{:?}", other),
    }
    let done = answer(f.next(Some(StoreReply::Friendship(Some(friendship("accepted")))))).unwrap();
    assert_eq!(done.notify, id(A));

    let mut f = AcceptFlow::new(id(B), 1);
    call(f.next(None));
    assert_eq!(refused(f.next(Some(StoreReply::Friendship(None)))), (404, "Request not found".to_string()));
}

#[test]
fn removing_a_friendship_answers_nothing() {
    let mut f = RemoveFlow::new(id(A), 1);
    match call(f.next(None)) {
        StoreCall::DeleteFriendship { friendship_id, user_id } => assert_eq!((friendship_id, user_id), (1, id(A))),
        other => panic!("{:?}", other),
    }
    assert!(answer(f.next(Some(StoreReply::Done))).is_ok());
}

#[test]
fn friends_are_sorted_for_the_asking_user() {
    let mut f = ListFriendsFlow::new(id(B));
    call(f.next(None));
    let rows = vec![friendship("accepted"), friendship("pending")];
    let r = answer(f.next(Some(StoreReply::Friendships(rows)))).unwrap();
    assert_eq!(r.friends.len(), 1);
    assert_eq!(r.friends[0].username, "alice");
    assert_eq!(r.pending_incoming.len(), 1);
    assert!(r.pending_outgoing.is_empty());
}

fn dm(content: &str) -> DmRow {
    DmRow {
        id: C.to_string(),
        sender_id: A.to_string(),
        sender_name: "alice".to_string(),
        receiver_id: B.to_string(),
        content: content.to_string(),
        timestamp: T.to_string(),
    }
}

#[test]
fn direct_messages_are_only_for_friends_and_come_oldest_first() {
    let mut f = DmHistoryFlow::new(id(A), id(B));
    match call(f.next(None)) {
        StoreCall::AreFriends { user_a, user_b } => assert_eq!((user_a, user_b), (id(A), id(B))),
        other => panic!("{:?}", other),
    }
    assert_eq!(refused(f.next(Some(StoreReply::Flag(false)))), (403, "Not friends".to_string()));

    let mut f = DmHistoryFlow::new(id(A), id(B));
    call(f.next(None));
    match call(f.next(Some(StoreReply::Flag(true)))) {
        StoreCall::FetchDmHistory { limit, .. } => assert_eq!(limit, 100),
        other => panic!("{:?}", other),
    }
    let ds = answer(f.next(Some(StoreReply::Dms(vec![dm("later"), dm("earlier")])))).unwrap();
    assert_eq!(ds[0].content, "earlier");
    assert_eq!(ds[1].content, "later");
}
