use realm_chat::friends::list_friends;
use realm_chat::ids::parse_id;
use realm_chat::models::{CharacterMode, FriendStatus};
use realm_chat::rows::{
    dms_from_rows, friendship_to_model, locations_from_rows, messages_from_rows, world_from_row, worlds_from_rows,
    DmRow, FriendshipRow, LocationRow, MessageRow, WorldRow,
};
use realm_chat::time::parse_timestamp;

const A: &str = "67e55044-10b1-426f-9247-bb680e5fe0c8";
const B: &str = "a1a2a3a4-b1b2-c1c2-d1d2-d3d4d5d6d7d8";
const C: &str = "00000000-0000-0000-0000-000000000001";
const T: &str = "2024-03-05T10:20:30.123456789+00:00";

fn id(s: &str) -> u128 {
    uuid::Uuid::parse_str(s).unwrap().as_u128()
}

fn world_row(mode: &str) -> WorldRow {
    WorldRow {
        id: A.to_string(),
        name: "Eldoria".to_string(),
        description: "A realm".to_string(),
        owner_id: B.to_string(),
        theme_id: "fantasy".to_string(),
        character_mode: mode.to_string(),
        invite_code: None,
        created_at: T.to_string(),
    }
}

#[test]
fn ids_read_as_their_big_endian_value() {
    assert_eq!(parse_id(C).unwrap(), 1);
    assert_eq!(parse_id(B).unwrap(), 0xa1a2a3a4b1b2c1c2d1d2d3d4d5d6d7d8);
    assert!(parse_id("not-a-uuid").is_err());
}

#[test]
fn times_read_as_seconds_and_nanoseconds() {
    let t = parse_timestamp(T).unwrap();
    assert_eq!(t.secs, 1709634030);
    assert_eq!(t.nanos, 123456789);
    let u = parse_timestamp("1970-01-01T01:00:00+01:00").unwrap();
    assert_eq!((u.secs, u.nanos), (0, 0));
    assert!(parse_timestamp("yesterday").is_err());
}

#[test]
fn a_stored_world_reads_back() {
    let w = world_from_row(&world_row("Local")).unwrap();
    assert_eq!(w.id, id(A));
    assert_eq!(w.owner_id, id(B));
    assert_eq!(w.name, "Eldoria");
    assert_eq!(w.character_mode, CharacterMode::Local);
    assert_eq!(w.created_at.secs, 1709634030);
    assert_eq!(world_from_row(&world_row("Universal")).unwrap().character_mode, CharacterMode::Universal);
    assert_eq!(world_from_row(&world_row("local")).unwrap().character_mode, CharacterMode::Universal);
}

#[test]
fn character_modes_round_trip_through_their_text() {
    for m in [CharacterMode::Universal, CharacterMode::Local] {
        assert_eq!(CharacterMode::from_text(&m.as_text()), m);
        assert_eq!(m.as_text(), format!("{:?}", m));
    }
}

#[test]
fn friendship_statuses_round_trip_through_their_text() {
    for s in [FriendStatus::Pending, FriendStatus::Accepted] {
        assert_eq!(FriendStatus::from_text(&s.as_text()), s);
    }
    assert_eq!(FriendStatus::Pending.as_text(), "pending");
    assert_eq!(FriendStatus::from_text("Accepted"), FriendStatus::Pending);
}

#[test]
fn a_world_with_a_bad_owner_is_an_internal_error() {
    let mut r = world_row("Local");
    r.owner_id = "zzz".to_string();
    let e = world_from_row(&r).unwrap_err();
    assert_eq!(e.status, 500);
    assert_eq!(e.message, uuid::Uuid::parse_str("zzz").unwrap_err().to_string());
    let mut r = world_row("Local");
    r.created_at = "never".to_string();
    let e = world_from_row(&r).unwrap_err();
    assert_eq!(e.status, 500);
}

#[test]
fn the_first_bad_world_fails_the_list() {
    let good = world_row("Local");
    let mut bad = world_row("Local");
    bad.id = "bad".to_string();
    assert_eq!(worlds_from_rows(&vec![good.clone(), good.clone()]).unwrap().len(), 2);
    assert_eq!(worlds_from_rows(&vec![good, bad]).unwrap_err().status, 500);
    assert!(worlds_from_rows(&vec![]).unwrap().is_empty());
}

#[test]
fn locations_read_in_order() {
    let rows = vec![
        LocationRow { id: B.to_string(), world_id: A.to_string(), name: "tavern".to_string() },
        LocationRow { id: C.to_string(), world_id: A.to_string(), name: "forge".to_string() },
    ];
    let ls = locations_from_rows(&rows).unwrap();
    assert_eq!(ls[0].name, "tavern");
    assert_eq!(ls[1].id, 1);
    assert_eq!(ls[1].world_id, id(A));
}

fn message(content: &str, time: &str) -> MessageRow {
    MessageRow {
        id: C.to_string(),
        world_id: A.to_string(),
        location_id: B.to_string(),
        sender_id: A.to_string(),
        sender_name: "alice".to_string(),
        content: content.to_string(),
        timestamp: time.to_string(),
    }
}

#[test]
fn message_history_is_answered_oldest_first() {
    let rows = vec![
        message("third", "2024-01-01T00:00:03Z"),
        message("second", "2024-01-01T00:00:02Z"),
        message("first", "2024-01-01T00:00:01Z"),
    ];
    let ms = messages_from_rows(&rows).unwrap();
    let texts: Vec<&str> = ms.iter().map(|m| m.content.as_str()).collect();
    assert_eq!(texts, vec!["first", "second", "third"]);
    assert_eq!(ms[0].location_id, id(B));
}

#[test]
fn a_bad_message_fails_the_history() {
    let rows = vec![message("ok", "2024-01-01T00:00:03Z"), message("bad", "soon")];
    assert_eq!(messages_from_rows(&rows).unwrap_err().status, 500);
}

#[test]
fn direct_history_is_answered_oldest_first() {
    let dm = |c: &str| DmRow {
        id: C.to_string(),
        sender_id: A.to_string(),
        sender_name: "alice".to_string(),
        receiver_id: B.to_string(),
        content: c.to_string(),
        timestamp: T.to_string(),
    };
    let ds = dms_from_rows(&vec![dm("late"), dm("early")]).unwrap();
    assert_eq!(ds[0].content, "early");
    assert_eq!(ds[1].content, "late");
    assert_eq!(ds[0].receiver_id, id(B));
}

fn friendship(fid: &str, requester: &str, addressee: &str, status: &str) -> FriendshipRow {
    FriendshipRow {
        id: fid.to_string(),
        requester_id: requester.to_string(),
        requester_name: format!("name of {}", &requester[..2]),
        addressee_id: addressee.to_string(),
        addressee_name: format!("name of {}", &addressee[..2]),
        status: status.to_string(),
        created_at: T.to_string(),
    }
}

#[test]
fn a_stored_friendship_reads_back() {
    let f = friendship_to_model(&friendship(C, A, B, "accepted")).unwrap();
    assert_eq!(f.status, FriendStatus::Accepted);
    assert_eq!(f.requester_id, id(A));
    assert_eq!(f.addressee_id, id(B));
    let p = friendship_to_model(&friendship(C, A, B, "pending")).unwrap();
    assert_eq!(p.status, FriendStatus::Pending);
}

#[test]
fn friendships_sort_into_friends_and_requests() {
    let me = A;
    let rows = vec![
        friendship(C, me, B, "accepted"),
        friendship(C, B, me, "accepted"),
        friendship(C, me, B, "pending"),
        friendship(C, B, me, "pending"),
    ];
    let r = list_friends(&rows, id(me)).unwrap();
    assert_eq!(r.friends.len(), 2);
    assert_eq!(r.friends[0].user_id, id(B));
    assert_eq!(r.friends[0].username, "name of a1");
    assert_eq!(r.friends[1].user_id, id(B));
    assert_eq!(r.pending_outgoing.len(), 1);
    assert_eq!(r.pending_outgoing[0].requester_id, id(me));
    assert_eq!(r.pending_incoming.len(), 1);
    assert_eq!(r.pending_incoming[0].requester_id, id(B));
    assert_eq!(r.friends.len() + r.pending_incoming.len() + r.pending_outgoing.len(), rows.len());
}

#[test]
fn an_accepted_friendship_needs_no_readable_time() {
    let mut row = friendship(C, A, B, "accepted");
    row.created_at = "unknown".to_string();
    assert_eq!(list_friends(&vec![row.clone()], id(A)).unwrap().friends.len(), 1);
    row.status = "pending".to_string();
    assert_eq!(list_friends(&vec![row], id(A)).unwrap_err().status, 500);
}
