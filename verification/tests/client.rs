use realm_chat::client_app::{accept_request, remove_request, request_failed, ClientState, Command, PendingResult};
use realm_chat::client_socket::{outgoing_message, replace_text, route_incoming, socket_url, Incoming};
use realm_chat::client_state::{clock_of, friends_badge, world_initial, MainView, Screen};
use realm_chat::models::{ChatMessage, DirectMessage, FriendRequest, FriendStatus, Location, World, CharacterMode};
use realm_chat::protocol::{FriendEntry, FriendsResponse, WsMessage};
use realm_chat::time::Timestamp;

const ME: u128 = 1;
const BOB: u128 = 2;
const CAROL: u128 = 3;

fn t0() -> Timestamp {
    Timestamp { secs: 0, nanos: 0 }
}

fn signed_in() -> ClientState {
    let mut s = ClientState::new();
    s.apply_result(PendingResult::AuthSuccess { token: "tok".to_string(), user_id: ME, username: "me".to_string() });
    s
}

fn world(id: u128, name: &str) -> World {
    World {
        id,
        name: name.to_string(),
        description: String::new(),
        owner_id: ME,
        theme_id: "fantasy".to_string(),
        character_mode: CharacterMode::Universal,
        invite_code: None,
        created_at: t0(),
    }
}

fn request(id: u128, from: u128, to: u128, status: FriendStatus) -> FriendRequest {
    FriendRequest {
        id,
        requester_id: from,
        requester_name: format!("user{}", from),
        addressee_id: to,
        addressee_name: format!("user{}", to),
        status,
        created_at: t0(),
    }
}

fn chat(location: u128, text: &str) -> ChatMessage {
    ChatMessage {
        id: 9,
        world_id: 10,
        location_id: location,
        sender_id: BOB,
        sender_name: "bob".to_string(),
        content: text.to_string(),
        timestamp: t0(),
    }
}

#[test]
fn the_client_starts_on_the_sign_in_screen() {
    let s = ClientState::new();
    assert_eq!(s.screen, Screen::Login);
    assert_eq!(s.main_view, MainView::Welcome);
    assert_eq!(s.chat.new_world_theme, "fantasy");
    assert!(!s.connected);
}

#[test]
fn signing_in_connects_and_loads() {
    let mut s = ClientState::new();
    let cmds = s.apply_result(PendingResult::AuthSuccess {
        token: "tok".to_string(),
        user_id: ME,
        username: "me".to_string(),
    });
    assert_eq!(s.screen, Screen::Main);
    assert_eq!(s.auth.user_id, Some(ME));
    assert!(s.connected);
    assert_eq!(cmds.len(), 3);
    assert!(matches!(&cmds[0], Command::ConnectSocket { token } if token == "tok"));
    assert!(matches!(cmds[1], Command::LoadWorlds));
    assert!(matches!(cmds[2], Command::LoadFriends));
}

#[test]
fn a_failed_sign_in_shows_its_error() {
    let mut s = ClientState::new();
    let cmds = s.apply_result(PendingResult::AuthError("401".to_string()));
    assert_eq!(s.auth.error.as_deref(), Some("401"));
    assert!(cmds.is_empty());
    s.show_register();
    assert_eq!(s.screen, Screen::Register);
    assert!(s.auth.error.is_none());
}

#[test]
fn the_sign_in_form_logs_in_or_registers() {
    let mut s = ClientState::new();
    s.auth.login_username = "a".to_string();
    s.auth.login_password = "b".to_string();
    s.auth.register_username = "c".to_string();
    s.auth.register_password = "d".to_string();
    assert!(matches!(s.submit_sign_in(), Command::Login { username, password } if username == "a" && password == "b"));
    s.show_register();
    assert!(matches!(s.submit_sign_in(), Command::Register { username, .. } if username == "c"));
}

#[test]
fn a_created_world_is_selected_and_its_locations_loaded() {
    let mut s = signed_in();
    s.chat.show_create_world = true;
    let cmds = s.apply_result(PendingResult::WorldCreated(world(5, "Eldoria")));
    assert_eq!(s.chat.worlds.len(), 1);
    assert_eq!(s.chat.selected_world, Some(5));
    assert!(!s.chat.show_create_world);
    assert!(matches!(cmds[..], [Command::LoadLocations { world_id: 5 }]));
}

#[test]
fn a_created_location_is_joined_and_opened() {
    let mut s = signed_in();
    s.select_world(5);
    let cmds = s.apply_result(PendingResult::LocationCreated(Location { id: 7, world_id: 5, name: "tavern".to_string() }));
    assert_eq!(s.chat.selected_location, Some(7));
    assert_eq!(s.main_view, MainView::LocationChat);
    assert!(matches!(cmds[..], [Command::JoinLocation { location_id: 7 }, Command::LoadMessages { world_id: 5, location_id: 7 }]));
}

#[test]
fn a_created_location_without_a_world_is_only_listed() {
    let mut s = ClientState::new();
    let cmds = s.apply_result(PendingResult::LocationCreated(Location { id: 7, world_id: 5, name: "x".to_string() }));
    assert_eq!(s.chat.locations.len(), 1);
    assert_eq!(s.chat.selected_location, None);
    assert!(cmds.is_empty());
}

#[test]
fn loaded_locations_close_the_chat() {
    let mut s = signed_in();
    s.chat.selected_location = Some(7);
    s.chat.messages.push(chat(7, "old"));
    s.apply_result(PendingResult::LocationsLoaded(vec![Location { id: 8, world_id: 5, name: "y".to_string() }]));
    assert_eq!(s.chat.selected_location, None);
    assert!(s.chat.messages.is_empty());
    assert_eq!(s.chat.locations[0].id, 8);
}

#[test]
fn only_messages_of_the_open_location_are_shown() {
    let mut s = signed_in();
    s.chat.selected_location = Some(7);
    s.receive_chat_messages(vec![chat(7, "here"), chat(8, "elsewhere"), chat(7, "again")]);
    let texts: Vec<&str> = s.chat.messages.iter().map(|m| m.content.as_str()).collect();
    assert_eq!(texts, vec!["here", "again"]);
    let mut closed = signed_in();
    closed.receive_chat_messages(vec![chat(7, "here")]);
    assert!(closed.chat.messages.is_empty());
}

#[test]
fn only_messages_of_the_open_conversation_are_shown() {
    let mut s = signed_in();
    s.open_dm(BOB);
    let dm = |from: u128, to: u128| DirectMessage {
        id: 1,
        sender_id: from,
        sender_name: String::new(),
        receiver_id: to,
        content: format!("{}->{}", from, to),
        timestamp: t0(),
    };
    s.receive_direct_messages(vec![dm(BOB, ME), dm(ME, BOB), dm(CAROL, ME)]);
    assert_eq!(s.friends.dm_messages.len(), 2);
    assert_eq!(s.friends.dm_messages[1].content, "1->2");
}

#[test]
fn an_accepted_request_makes_the_other_party_a_friend() {
    let mut s = signed_in();
    s.friends.pending_incoming.push(request(40, BOB, ME, FriendStatus::Pending));
    s.friends.pending_incoming.push(request(41, CAROL, ME, FriendStatus::Pending));
    s.apply_result(PendingResult::FriendAccepted(request(40, BOB, ME, FriendStatus::Accepted)));
    assert_eq!(s.friends.pending_incoming.len(), 1);
    assert_eq!(s.friends.pending_incoming[0].id, 41);
    assert_eq!(s.friends.friends.len(), 1);
    assert_eq!(s.friends.friends[0].user_id, BOB);
    assert_eq!(s.friends.friends[0].username, "user2");
}

#[test]
fn a_removed_friendship_leaves_the_requests_and_keeps_the_friends() {
    let mut s = signed_in();
    s.friends.friends.push(FriendEntry { user_id: BOB, username: "bob".to_string() });
    s.friends.active_dm_peer = Some(BOB);
    s.friends.pending_incoming.push(request(40, CAROL, ME, FriendStatus::Pending));
    s.friends.pending_outgoing.push(request(40, ME, CAROL, FriendStatus::Pending));
    s.friends.pending_outgoing.push(request(42, ME, BOB, FriendStatus::Pending));
    let cmds = s.apply_result(PendingResult::FriendRemoved(40));
    assert!(s.friends.pending_incoming.is_empty());
    assert_eq!(s.friends.pending_outgoing.len(), 1);
    assert_eq!(s.friends.pending_outgoing[0].id, 42);
    assert_eq!(s.friends.friends.len(), 1);
    assert!(matches!(cmds[..], [Command::LoadFriends]));
}

#[test]
fn friendship_notices_count_requests_and_never_list_a_friend_twice() {
    let mut s = signed_in();
    s.friends.pending_outgoing.push(request(50, ME, BOB, FriendStatus::Pending));
    s.receive_friend_requests(vec![
        request(51, CAROL, ME, FriendStatus::Pending),
        request(50, ME, BOB, FriendStatus::Accepted),
        request(50, ME, BOB, FriendStatus::Accepted),
        request(52, BOB, ME, FriendStatus::Pending),
    ]);
    assert_eq!(s.friends.unread_requests, 2);
    assert_eq!(s.friends.pending_incoming.len(), 2);
    assert!(s.friends.pending_outgoing.is_empty());
    assert_eq!(s.friends.friends.len(), 1);
    assert_eq!(s.friends.friends[0].user_id, BOB);
    s.toggle_friends_sidebar();
    assert!(s.show_friends_sidebar);
    assert_eq!(s.friends.unread_requests, 0);
}

#[test]
fn clicking_a_world_opens_it_once() {
    let mut s = signed_in();
    s.chat.messages.push(chat(7, "x"));
    let cmds = s.select_world(5);
    assert!(matches!(cmds[..], [Command::LoadLocations { world_id: 5 }]));
    assert!(s.chat.messages.is_empty());
    assert!(s.select_world(5).is_empty());
}

#[test]
fn clicking_a_location_joins_it_and_closes_the_conversation() {
    let mut s = signed_in();
    assert!(s.select_location(7).is_empty());
    s.select_world(5);
    s.friends.active_dm_peer = Some(BOB);
    let cmds = s.select_location(7);
    assert!(matches!(cmds[..], [Command::JoinLocation { location_id: 7 }, Command::LoadMessages { world_id: 5, location_id: 7 }]));
    assert_eq!(s.friends.active_dm_peer, None);
    assert_eq!(s.main_view, MainView::LocationChat);
    assert!(s.select_location(7).is_empty());
}

#[test]
fn the_chat_composer_sends_trimmed_text() {
    let mut s = signed_in();
    s.chat.compose_text = "  hello  ".to_string();
    assert!(s.send_chat().is_empty());
    assert_eq!(s.chat.compose_text, "  hello  ");
    s.select_world(5);
    s.select_location(7);
    s.chat.compose_text = "   ".to_string();
    assert!(s.send_chat().is_empty());
    s.chat.compose_text = "  hello  ".to_string();
    let cmds = s.send_chat();
    assert!(matches!(&cmds[..], [Command::SendChat { location_id: 7, content }] if content == "hello"));
    assert!(s.chat.compose_text.is_empty());
}

#[test]
fn the_direct_composer_sends_trimmed_text() {
    let mut s = signed_in();
    s.open_dm(BOB);
    s.friends.dm_compose = "\thi\n".to_string();
    let cmds = s.send_dm();
    assert!(matches!(&cmds[..], [Command::SendDm { receiver_id: 2, content }] if content == "hi"));
    assert!(s.friends.dm_compose.is_empty());
}

#[test]
fn a_friend_request_needs_a_name() {
    let mut s = signed_in();
    s.friends.add_friend_input = "   ".to_string();
    assert!(s.request_friend().is_empty());
    s.friends.add_friend_input = " bob ".to_string();
    assert!(matches!(&s.request_friend()[..], [Command::SendFriendRequest { username }] if username == "bob"));
    let cmds = s.apply_result(PendingResult::FriendRequestSent(request(60, ME, BOB, FriendStatus::Pending)));
    assert!(cmds.is_empty());
    assert!(s.friends.add_friend_input.is_empty());
    assert_eq!(s.friends.pending_outgoing.len(), 1);
    assert!(matches!(accept_request(60), Command::AcceptFriendRequest { friendship_id: 60 }));
    assert!(matches!(remove_request(60), Command::RemoveFriend { friendship_id: 60 }));
}

#[test]
fn a_world_needs_a_name() {
    let mut s = signed_in();
    s.open_create_world();
    s.chat.new_world_name = "  ".to_string();
    assert!(s.create_world().is_empty());
    s.chat.new_world_name = " Eldoria ".to_string();
    s.chat.new_world_description = " old ".to_string();
    let cmds = s.create_world();
    assert!(matches!(&cmds[..], [Command::CreateWorld { name, description, theme }]
        if name == "Eldoria" && description == "old" && theme == "fantasy"));
    assert!(s.chat.new_world_name.is_empty());
    assert!(s.chat.show_create_world);
}

#[test]
fn a_location_needs_a_name_and_a_world() {
    let mut s = signed_in();
    s.chat.new_location_name = "forge".to_string();
    assert!(s.create_location().is_empty());
    assert_eq!(s.chat.new_location_name, "forge");
    s.select_world(5);
    let cmds = s.create_location();
    assert!(matches!(&cmds[..], [Command::CreateLocation { world_id: 5, name }] if name == "forge"));
}

#[test]
fn opening_a_conversation_loads_its_history() {
    let mut s = signed_in();
    s.chat.selected_location = Some(7);
    let cmds = s.open_dm(BOB);
    assert_eq!(s.friends.active_dm_peer, Some(BOB));
    assert_eq!(s.main_view, MainView::DirectMessage);
    assert_eq!(s.chat.selected_location, None);
    assert!(matches!(cmds[..], [Command::LoadDmHistory { peer_id: 2 }]));
}

#[test]
fn errors_are_reported() {
    let mut s = signed_in();
    let cmds = s.apply_result(PendingResult::ApiError("boom".to_string()));
    assert!(matches!(&cmds[..], [Command::ReportError { message }] if message == "boom"));
    s.apply_result(PendingResult::FriendApiError("404".to_string()));
    assert_eq!(s.friends.add_friend_error.as_deref(), Some("404"));
}

#[test]
fn loaded_friends_replace_the_panel() {
    let mut s = signed_in();
    s.apply_result(PendingResult::FriendsLoaded(FriendsResponse {
        friends: vec![FriendEntry { user_id: BOB, username: "bob".to_string() }],
        pending_incoming: vec![],
        pending_outgoing: vec![request(1, ME, CAROL, FriendStatus::Pending)],
    }));
    assert_eq!(s.friends.peer_username(BOB), "bob");
    assert_eq!(s.friends.peer_username(CAROL), "Unknown");
    assert_eq!(s.friends.pending_outgoing.len(), 1);
}

#[test]
fn titles_fall_back_when_unknown() {
    let mut s = signed_in();
    s.apply_result(PendingResult::WorldsLoaded(vec![world(5, "Eldoria")]));
    assert_eq!(s.chat.world_title(5), "Eldoria");
    assert_eq!(s.chat.world_title(6), "World");
    assert_eq!(s.chat.location_title(7), "");
}

#[test]
fn world_badges_are_upper_case_initials() {
    assert_eq!(world_initial("eldoria"), 'E');
    assert_eq!(world_initial("émile"), 'É');
    assert_eq!(world_initial(""), '?');
    assert_eq!(world_initial("ß"), 'S');
}

#[test]
fn message_times_show_hour_and_minute_in_utc() {
    assert_eq!(clock_of(Timestamp { secs: 1709634030, nanos: 5 }), (10, 20));
    assert_eq!(clock_of(Timestamp { secs: -60, nanos: 0 }), (23, 59));
    assert_eq!(clock_of(Timestamp { secs: 0, nanos: 0 }), (0, 0));
}

#[test]
fn incoming_messages_go_to_their_inbox() {
    assert!(matches!(route_incoming(WsMessage::MessageReceived(chat(7, "x"))), Incoming::Chat(m) if m.location_id == 7));
    assert!(matches!(route_incoming(WsMessage::Pong), Incoming::Ignored));
    assert!(matches!(route_incoming(WsMessage::FriendRequestReceived(request(1, BOB, ME, FriendStatus::Pending))), Incoming::Friendship(_)));
}

#[test]
fn socket_commands_become_messages() {
    let m = outgoing_message(&Command::SendChat { location_id: 7, content: "hi".to_string() });
    assert!(matches!(m, Some(WsMessage::Chat { location_id: 7, content }) if content == "hi"));
    assert!(matches!(outgoing_message(&Command::JoinLocation { location_id: 3 }), Some(WsMessage::Join { location_id: 3 })));
    assert!(outgoing_message(&Command::LoadWorlds).is_none());
}

#[test]
fn failures_land_where_the_request_was_made() {
    let login = Command::Login { username: "a".to_string(), password: "b".to_string() };
    assert!(matches!(request_failed(&login, "401".to_string()), PendingResult::AuthError(m) if m == "401"));
    let friend = Command::SendFriendRequest { username: "bob".to_string() };
    assert!(matches!(request_failed(&friend, "404".to_string()), PendingResult::FriendApiError(_)));
    assert!(matches!(request_failed(&Command::LoadWorlds, "500".to_string()), PendingResult::ApiError(_)));
}

#[test]
fn the_socket_address_follows_the_server_scheme() {
    assert_eq!(socket_url("http://127.0.0.1:8080", "abc"), "ws://127.0.0.1:8080/ws?token=abc");
    assert_eq!(socket_url("https://chat.example", "t.k"), "wss://chat.example/ws?token=t.k");
    assert_eq!(socket_url("chat.example", ""), "chat.example/ws?token=");
}

#[test]
fn replacing_text_matches_std() {
    for (s, p, r) in [("aaa", "aa", "b"), ("http://x/http://y", "http://", "ws://"), ("é-é", "é", "e"), ("", "x", "y")] {
        assert_eq!(replace_text(s, p, r), s.replace(p, r));
    }
}

#[test]
fn the_friends_button_shows_unread_requests() {
    assert_eq!(friends_badge(0), "DM");
    assert_eq!(friends_badge(3), "DM\n(3)");
    assert_eq!(friends_badge(120), "DM\n(120)");
    assert_eq!(friends_badge(usize::MAX), format!("DM\n({})", usize::MAX));
}
