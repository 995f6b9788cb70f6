use realm_chat::handlers::{
    accepted_request, created_world, ensure_no_friendship, friend_notice, friend_target, plan_friend_request,
    plan_location, plan_world, require_friends, require_member, require_world, sent_request,
};
use realm_chat::hub::Hub;
use realm_chat::models::{CharacterMode, ChatMessage};
use realm_chat::protocol::{CreateLocationRequest, CreateWorldRequest, WsMessage};
use realm_chat::rows::{FriendshipRow, UserRow, WorldRow};
use realm_chat::session::{Session, SessionAction, SessionPhase};
use realm_chat::time::Timestamp;

const A: &str = "67e55044-10b1-426f-9247-bb680e5fe0c8";
const B: &str = "a1a2a3a4-b1b2-c1c2-d1d2-d3d4d5d6d7d8";
const T: &str = "2024-03-05T10:20:30Z";

fn id(s: &str) -> u128 {
    uuid::Uuid::parse_str(s).unwrap().as_u128()
}

fn user(uid: &str) -> UserRow {
    UserRow { id: uid.to_string(), username: "bob".to_string(), password_hash: String::new(), created_at: T.to_string() }
}

fn friendship(status: &str) -> FriendshipRow {
    FriendshipRow {
        id: A.to_string(),
        requester_id: A.to_string(),
        requester_name: "alice".to_string(),
        addressee_id: B.to_string(),
        addressee_name: "bob".to_string(),
        status: status.to_string(),
        created_at: T.to_string(),
    }
}

#[test]
fn a_new_world_takes_the_request_and_stores_its_mode_by_name() {
    let req = CreateWorldRequest {
        name: "Eldoria".to_string(),
        description: "d".to_string(),
        theme_id: "noir".to_string(),
        character_mode: CharacterMode::Local,
    };
    let w = plan_world(&req, 7);
    assert_eq!(w.name, "Eldoria");
    assert_eq!(w.owner_id, 7);
    assert_eq!(w.character_mode, "Local");
    assert!(w.invite_code.is_none());
    assert_ne!(w.id, plan_world(&req, 7).id);
}

#[test]
fn a_stored_world_is_answered() {
    let row = WorldRow {
        id: A.to_string(),
        name: "Eldoria".to_string(),
        description: String::new(),
        owner_id: B.to_string(),
        theme_id: "fantasy".to_string(),
        character_mode: "Universal".to_string(),
        invite_code: Some("code".to_string()),
        created_at: T.to_string(),
    };
    let w = created_world(Some(row.clone())).unwrap();
    assert_eq!(w.id, id(A));
    assert_eq!(w.invite_code.as_deref(), Some("code"));
    assert_eq!(require_world(Some(row)).unwrap().name, "Eldoria");
}

#[test]
fn an_unknown_world_cannot_be_joined() {
    let e = require_world(None).unwrap_err();
    assert_eq!((e.status, e.message.as_str()), (404, "World not found"));
}

#[test]
fn only_members_see_a_world() {
    assert!(require_member(true).is_ok());
    let e = require_member(false).unwrap_err();
    assert_eq!((e.status, e.message.as_str()), (403, "Not a member"));
}

#[test]
fn a_new_location_belongs_to_its_world() {
    let l = plan_location(5, &CreateLocationRequest { name: "tavern".to_string() });
    assert_eq!(l.world_id, 5);
    assert_eq!(l.name, "tavern");
}

#[test]
fn friend_requests_need_another_existing_user() {
    let e = friend_target(id(A), None).unwrap_err();
    assert_eq!((e.status, e.message.as_str()), (404, "User not found"));
    let e = friend_target(id(A), Some(user(A))).unwrap_err();
    assert_eq!((e.status, e.message.as_str()), (400, "Cannot add yourself"));
    assert_eq!(friend_target(id(A), Some(user(B))).unwrap(), id(B));
    assert_eq!(friend_target(id(A), Some(user("?"))).unwrap_err().status, 500);
}

#[test]
fn a_friendship_is_requested_once() {
    let e = ensure_no_friendship(&Some(friendship("pending"))).unwrap_err();
    assert_eq!((e.status, e.message.as_str()), (409, "Friend request already exists"));
    assert!(ensure_no_friendship(&None).is_ok());
    let f = plan_friend_request(1, 2);
    assert_eq!((f.requester_id, f.addressee_id), (1, 2));
}

#[test]
fn a_sent_request_is_read_back() {
    let r = sent_request(Some(friendship("pending"))).unwrap();
    assert_eq!(r.addressee_id, id(B));
    let e = sent_request(None).unwrap_err();
    assert_eq!((e.status, e.message.as_str()), (500, "Failed to fetch friendship"));
    assert!(matches!(friend_notice(&r), WsMessage::FriendRequestReceived(f) if f.id == r.id));
}

#[test]
fn an_acceptance_notifies_the_requester() {
    let (m, notify) = accepted_request(Some(friendship("accepted"))).unwrap();
    assert_eq!(notify, id(A));
    assert_eq!(m.status, realm_chat::models::FriendStatus::Accepted);
    let e = accepted_request(None).unwrap_err();
    assert_eq!((e.status, e.message.as_str()), (404, "Request not found"));
}

#[test]
fn only_friends_read_their_messages() {
    assert!(require_friends(true).is_ok());
    let e = require_friends(false).unwrap_err();
    assert_eq!((e.status, e.message.as_str()), (403, "Not friends"));
}

fn message(location: u128) -> ChatMessage {
    ChatMessage {
        id: 1,
        world_id: 2,
        location_id: location,
        sender_id: 3,
        sender_name: "a".to_string(),
        content: "hi".to_string(),
        timestamp: Timestamp { secs: 0, nanos: 0 },
    }
}

fn chat_of(m: WsMessage) -> ChatMessage {
    match m {
        WsMessage::MessageReceived(c) => c,
        other => panic!("expected a chat message, got {:?}", other),
    }
}

#[test]
fn the_hub_delivers_to_subscribers_of_the_location() {
    let mut hub = Hub::new();
    hub.publish(7, message(7));
    let first = hub.subscribe(7);
    let second = hub.subscribe(8);
    let third = hub.subscribe(7);
    assert_eq!(first.channel_number(), third.channel_number());
    assert_ne!(first.channel_number(), second.channel_number());
    let mut rx = first.into_receiver();
    let mut other = second.into_receiver();
    let mut again = third.into_receiver();
    hub.publish(7, message(7));
    assert_eq!(chat_of(rx.try_recv().unwrap()).location_id, 7);
    assert_eq!(chat_of(again.try_recv().unwrap()).location_id, 7);
    assert!(other.try_recv().is_err());
    assert!(rx.try_recv().is_err());
}

#[test]
fn the_hub_delivers_in_publish_order_and_not_to_later_subscribers() {
    let mut hub = Hub::new();
    let mut rx = hub.subscribe(7).into_receiver();
    let mut a = message(7);
    a.content = "one".to_string();
    let mut b = message(7);
    b.content = "two".to_string();
    hub.publish(7, a);
    let mut late = hub.subscribe(7).into_receiver();
    hub.publish(7, b);
    assert_eq!(chat_of(rx.try_recv().unwrap()).content, "one");
    assert_eq!(chat_of(rx.try_recv().unwrap()).content, "two");
    assert_eq!(chat_of(late.try_recv().unwrap()).content, "two");
    assert!(late.try_recv().is_err());
}

#[test]
fn the_hub_delivers_notices_to_the_user() {
    let mut hub = Hub::new();
    let location = hub.subscribe(4);
    let notices = hub.subscribe_user(4);
    assert_ne!(location.channel_number(), notices.channel_number());
    let mut rx = notices.into_receiver();
    let mut second_socket = hub.subscribe_user(4).into_receiver();
    let mut someone_else = hub.subscribe_user(5).into_receiver();
    let mut chat = location.into_receiver();
    hub.notify_user(4, WsMessage::Pong);
    hub.notify_user(6, WsMessage::Ping);
    assert!(matches!(rx.try_recv().unwrap(), WsMessage::Pong));
    assert!(matches!(second_socket.try_recv().unwrap(), WsMessage::Pong));
    assert!(rx.try_recv().is_err());
    assert!(someone_else.try_recv().is_err());
    assert!(chat.try_recv().is_err());
}

#[test]
fn a_chat_message_is_stored_then_published() {
    let mut s = Session::new(3, "alice".to_string());
    let acts = s.on_message(WsMessage::Chat { location_id: 7, content: "hi".to_string() });
    assert!(matches!(acts[..], [SessionAction::LookupLocationWorld { location_id: 7 }]));
    let acts = s.on_location_world(Ok(Some(A.to_string())));
    let stored_id = match &acts[..] {
        [SessionAction::StoreMessage { id: mid, world_id, location_id: 7, sender_id: 3, sender_name, content }] => {
            assert_eq!(*world_id, id(A));
            assert_eq!(sender_name, "alice");
            assert_eq!(content, "hi");
            *mid
        },
        _ => panic!("expected a store"),
    };
    let acts = s.on_message_stored(Ok(()));
    match &acts[..] {
        [SessionAction::Publish { location_id: 7, message }] => {
            assert_eq!(message.id, stored_id);
            assert_eq!(message.sender_id, 3);
            assert_eq!(message.content, "hi");
        },
        _ => panic!("expected a publication"),
    }
    assert!(matches!(s.phase, SessionPhase::Idle));
}

#[test]
fn a_chat_message_to_an_unknown_location_is_dropped() {
    let mut s = Session::new(3, "alice".to_string());
    s.on_message(WsMessage::Chat { location_id: 7, content: "hi".to_string() });
    assert!(s.on_location_world(Ok(None)).is_empty());
    assert!(matches!(s.phase, SessionPhase::Idle));
    s.on_message(WsMessage::Chat { location_id: 7, content: "hi".to_string() });
    assert!(s.on_location_world(Ok(Some("garbage".to_string()))).is_empty());
    s.on_message(WsMessage::Chat { location_id: 7, content: "hi".to_string() });
    assert!(s.on_location_world(Err("db down".to_string())).is_empty());
    s.on_message(WsMessage::Chat { location_id: 7, content: "hi".to_string() });
    s.on_location_world(Ok(Some(A.to_string())));
    assert!(s.on_message_stored(Err("disk full".to_string())).is_empty());
}

#[test]
fn a_direct_message_goes_to_both_friends() {
    let mut s = Session::new(3, "alice".to_string());
    let acts = s.on_message(WsMessage::SendDm { receiver_id: 4, content: "psst".to_string() });
    assert!(matches!(acts[..], [SessionAction::CheckFriends { user_a: 3, user_b: 4 }]));
    let acts = s.on_friendship(Ok(true));
    assert!(matches!(&acts[..], [SessionAction::StoreDm { sender_id: 3, receiver_id: 4, content, .. }] if content == "psst"));
    let acts = s.on_dm_stored(Ok(()));
    match &acts[..] {
        [SessionAction::Notify { user_id: 4, message: WsMessage::DirectMessageReceived(a) },
         SessionAction::Notify { user_id: 3, message: WsMessage::DirectMessageReceived(b) }] => {
            assert_eq!(a.id, b.id);
            assert_eq!(a.content, "psst");
            assert_eq!(b.sender_name, "alice");
        },
        _ => panic!("expected two notices"),
    }
}

#[test]
fn a_direct_message_to_a_stranger_is_dropped() {
    let mut s = Session::new(3, "alice".to_string());
    s.on_message(WsMessage::SendDm { receiver_id: 4, content: "psst".to_string() });
    assert!(s.on_friendship(Ok(false)).is_empty());
    s.on_message(WsMessage::SendDm { receiver_id: 4, content: "psst".to_string() });
    assert!(s.on_friendship(Err("db".to_string())).is_empty());
    assert!(matches!(s.phase, SessionPhase::Idle));
}

#[test]
fn pings_are_answered_and_joins_subscribe() {
    let mut s = Session::new(3, "alice".to_string());
    assert!(matches!(s.on_message(WsMessage::Ping)[..], [SessionAction::Reply(WsMessage::Pong)]));
    assert!(matches!(s.on_message(WsMessage::Join { location_id: 9 })[..], [SessionAction::Subscribe { location_id: 9 }]));
    assert!(s.on_message(WsMessage::Leave { location_id: 9 }).is_empty());
    assert!(s.on_message(WsMessage::Pong).is_empty());
}
