//! The desktop client's decisions: how each answer from the server, each
//! real-time notice and each click changes what the client shows, and what
//! the client asks of the server in turn. The window and the network live
//! outside; they carry out the `Command`s returned here.

use vstd::prelude::*;
use crate::client_state::{AuthState, ChatState, FriendsState, MainView, Screen};
use crate::models::{ChatMessage, DirectMessage, FriendRequest, FriendStatus, Location, World};
use crate::protocol::{FriendEntry, FriendsResponse};
use crate::text::{is_blank, trimmed, trimmed_owned};

verus! {

/// Everything the client shows. `connected` says whether the real-time
/// channel has been opened (it is, from the first successful sign-in on).
#[derive(Clone, Debug)]
pub struct ClientState {
    pub screen: Screen,
    pub auth: AuthState,
    pub chat: ChatState,
    pub friends: FriendsState,
    pub main_view: MainView,
    pub show_friends_sidebar: bool,
    pub connected: bool,
}

/// The answer to a request that the client made earlier.
#[derive(Clone, Debug)]
pub enum PendingResult {
    AuthSuccess { token: String, user_id: u128, username: String },
    AuthError(String),
    WorldsLoaded(Vec<World>),
    LocationsLoaded(Vec<Location>),
    MessagesLoaded(Vec<ChatMessage>),
    WorldCreated(World),
    LocationCreated(Location),
    FriendsLoaded(FriendsResponse),
    DmHistoryLoaded(Vec<DirectMessage>),
    FriendRequestSent(FriendRequest),
    FriendAccepted(FriendRequest),
    FriendRemoved(u128),
    ApiError(String),
    FriendApiError(String),
}

/// What the client asks of the outside world: a request to the server, a
/// message on the real-time channel, or an error to log.
#[derive(Clone, Debug)]
pub enum Command {
    Login { username: String, password: String },
    Register { username: String, password: String },
    ConnectSocket { token: String },
    LoadWorlds,
    LoadLocations { world_id: u128 },
    LoadMessages { world_id: u128, location_id: u128 },
    LoadFriends,
    LoadDmHistory { peer_id: u128 },
    SendFriendRequest { username: String },
    AcceptFriendRequest { friendship_id: u128 },
    RemoveFriend { friendship_id: u128 },
    CreateWorld { name: String, description: String, theme: String },
    CreateLocation { world_id: u128, name: String },
    JoinLocation { location_id: u128 },
    SendChat { location_id: u128, content: String },
    SendDm { receiver_id: u128, content: String },
    ReportError { message: String },
}

/// Keeps the requests whose id is not `id`.
pub open spec fn other_request(id: u128) -> spec_fn(FriendRequest) -> bool {
    |r: FriendRequest| r.id != id
}

/// The friend that an accepted request gives the signed-in user `me`: the
/// addressee when `me` sent it, else the requester.
pub open spec fn accepted_peer(req: FriendRequest, me: Option<u128>) -> FriendEntry {
    if me == Some(req.requester_id) {
        FriendEntry { user_id: req.addressee_id, username: req.addressee_name }
    } else {
        FriendEntry { user_id: req.requester_id, username: req.requester_name }
    }
}

/// Whether a friend entry for `id` is in `s`.
pub open spec fn has_friend_spec(s: Seq<FriendEntry>, id: u128) -> bool {
    exists|k: int| 0 <= k < s.len() && s[k].user_id == id
}

/// Whether a request with id `id` is in `s`.
pub open spec fn has_request_spec(s: Seq<FriendRequest>, id: u128) -> bool {
    exists|k: int| 0 <= k < s.len() && s[k].id == id
}

/// The requests of `v` whose id is not `id`, in order.
pub fn requests_without(v: &Vec<FriendRequest>, id: u128) -> (r: Vec<FriendRequest>)
    ensures
        r@ == v@.filter(other_request(id)),
{
    let mut out: Vec<FriendRequest> = Vec::new();
    let mut i: usize = 0;
    assert(v@.take(0) =~= Seq::<FriendRequest>::empty());
    proof {
        reveal(Seq::filter);
    }
    while i < v.len()
        invariant
            i <= v@.len(),
            out@ == v@.take(i as int).filter(other_request(id)),
        decreases v@.len() - i,
    {
        proof {
            assert(v@.take(i + 1) =~= v@.take(i as int).push(v@[i as int]));
            v@.take(i as int).lemma_filter_push(v@[i as int], other_request(id));
        }
        if v[i].id != id {
            out.push(v[i].duplicate());
        }
        i = i + 1;
    }
    assert(v@.take(i as int) =~= v@);
    out
}

/// Whether `v` holds a friend entry for `id`.
pub fn has_friend(v: &Vec<FriendEntry>, id: u128) -> (b: bool)
    ensures
        b == has_friend_spec(v@, id),
{
    let mut i: usize = 0;
    while i < v.len()
        invariant
            i <= v@.len(),
            forall|k: int| 0 <= k < i ==> v@[k].user_id != id,
        decreases v@.len() - i,
    {
        if v[i].user_id == id {
            return true;
        }
        i = i + 1;
    }
    false
}

/// The index of the first friend entry for `id`.
pub fn friend_position(v: &Vec<FriendEntry>, id: u128) -> (r: Option<usize>)
    ensures
        match r {
            Some(k) => k < v@.len() && v@[k as int].user_id == id && forall|j: int|
                0 <= j < k ==> v@[j].user_id != id,
            None => !has_friend_spec(v@, id),
        },
{
    let mut i: usize = 0;
    while i < v.len()
        invariant
            i <= v@.len(),
            forall|k: int| 0 <= k < i ==> v@[k].user_id != id,
        decreases v@.len() - i,
    {
        if v[i].user_id == id {
            return Some(i);
        }
        i = i + 1;
    }
    None
}

/// Whether `v` holds a request with id `id`.
pub fn has_request(v: &Vec<FriendRequest>, id: u128) -> (b: bool)
    ensures
        b == has_request_spec(v@, id),
{
    let mut i: usize = 0;
    while i < v.len()
        invariant
            i <= v@.len(),
            forall|k: int| 0 <= k < i ==> v@[k].id != id,
        decreases v@.len() - i,
    {
        if v[i].id == id {
            return true;
        }
        i = i + 1;
    }
    false
}

/// The friend entry for an accepted request, seen by the signed-in user.
pub fn peer_of_accepted(req: &FriendRequest, me: Option<u128>) -> (e: FriendEntry)
    ensures
        e == accepted_peer(*req, me),
        me == Some(req.requester_id) ==> e.user_id == req.addressee_id && e.username == req.addressee_name,
        me != Some(req.requester_id) ==> e.user_id == req.requester_id && e.username == req.requester_name,
{
    let sent_by_me = match me {
        Some(m) => m == req.requester_id,
        None => false,
    };
    if sent_by_me {
        FriendEntry { user_id: req.addressee_id, username: req.addressee_name.clone() }
    } else {
        FriendEntry { user_id: req.requester_id, username: req.requester_name.clone() }
    }
}


/// How an answer from the server changes the client state `s` into `t`,
/// with the commands `cmds` that follow from it.
pub open spec fn result_applied(s: ClientState, r: PendingResult, t: ClientState, cmds: Seq<Command>) -> bool {
    match r {
        PendingResult::AuthSuccess { token, user_id, username } => {
            &&& t == ClientState {
                screen: Screen::Main,
                auth: AuthState { token, user_id: Some(user_id), username, error: None, ..s.auth },
                connected: true,
                ..s
            }
            &&& cmds == seq![Command::ConnectSocket { token }, Command::LoadWorlds, Command::LoadFriends]
        },
        PendingResult::AuthError(e) => {
            &&& t == ClientState { auth: AuthState { error: Some(e), ..s.auth }, ..s }
            &&& cmds.len() == 0
        },
        PendingResult::WorldsLoaded(w) => {
            &&& t == ClientState { chat: ChatState { worlds: w, ..s.chat }, ..s }
            &&& cmds.len() == 0
        },
        PendingResult::LocationsLoaded(l) => {
            &&& t.chat.messages@.len() == 0
            &&& t == ClientState {
                chat: ChatState {
                    locations: l,
                    selected_location: None,
                    messages: t.chat.messages,
                    ..s.chat
                },
                ..s
            }
            &&& cmds.len() == 0
        },
        PendingResult::MessagesLoaded(m) => {
            &&& t == ClientState { chat: ChatState { messages: m, ..s.chat }, ..s }
            &&& cmds.len() == 0
        },
        PendingResult::WorldCreated(w) => {
            &&& t.chat.worlds@ == s.chat.worlds@.push(w)
            &&& t == ClientState {
                chat: ChatState {
                    worlds: t.chat.worlds,
                    selected_world: Some(w.id),
                    show_create_world: false,
                    ..s.chat
                },
                ..s
            }
            &&& cmds == seq![Command::LoadLocations { world_id: w.id }]
        },
        PendingResult::LocationCreated(l) => {
            &&& t.chat.locations@ == s.chat.locations@.push(l)
            &&& match s.chat.selected_world {
                Some(wid) => {
                    &&& t == ClientState {
                        chat: ChatState {
                            locations: t.chat.locations,
                            show_create_location: false,
                            selected_location: Some(l.id),
                            ..s.chat
                        },
                        main_view: MainView::LocationChat,
                        ..s
                    }
                    &&& cmds == (if s.connected {
                        seq![Command::JoinLocation { location_id: l.id }]
                    } else {
                        Seq::empty()
                    }) + seq![Command::LoadMessages { world_id: wid, location_id: l.id }]
                },
                None => {
                    &&& t == ClientState {
                        chat: ChatState {
                            locations: t.chat.locations,
                            show_create_location: false,
                            ..s.chat
                        },
                        ..s
                    }
                    &&& cmds.len() == 0
                },
            }
        },
        PendingResult::FriendsLoaded(resp) => {
            &&& t == ClientState {
                friends: FriendsState {
                    friends: resp.friends,
                    pending_incoming: resp.pending_incoming,
                    pending_outgoing: resp.pending_outgoing,
                    ..s.friends
                },
                ..s
            }
            &&& cmds.len() == 0
        },
        PendingResult::DmHistoryLoaded(m) => {
            &&& t == ClientState { friends: FriendsState { dm_messages: m, ..s.friends }, ..s }
            &&& cmds.len() == 0
        },
        PendingResult::FriendRequestSent(req) => {
            &&& t.friends.pending_outgoing@ == s.friends.pending_outgoing@.push(req)
            &&& t.friends.add_friend_input@ == Seq::<char>::empty()
            &&& t == ClientState {
                friends: FriendsState {
                    pending_outgoing: t.friends.pending_outgoing,
                    add_friend_error: None,
                    add_friend_input: t.friends.add_friend_input,
                    ..s.friends
                },
                ..s
            }
            &&& cmds.len() == 0
        },
        PendingResult::FriendAccepted(req) => {
            &&& t.friends.pending_incoming@ == s.friends.pending_incoming@.filter(
                other_request(req.id),
            )
            &&& t.friends.friends@ == s.friends.friends@.push(accepted_peer(req, s.auth.user_id))
            &&& t == ClientState {
                friends: FriendsState {
                    pending_incoming: t.friends.pending_incoming,
                    friends: t.friends.friends,
                    ..s.friends
                },
                ..s
            }
            &&& cmds.len() == 0
        },
        PendingResult::FriendRemoved(fid) => {
            &&& t.friends.pending_incoming@ == s.friends.pending_incoming@.filter(other_request(fid))
            &&& t.friends.pending_outgoing@ == s.friends.pending_outgoing@.filter(other_request(fid))
            &&& t == ClientState {
                friends: FriendsState {
                    pending_incoming: t.friends.pending_incoming,
                    pending_outgoing: t.friends.pending_outgoing,
                    ..s.friends
                },
                ..s
            }
            &&& cmds == seq![Command::LoadFriends]
        },
        PendingResult::ApiError(e) => {
            &&& t == s
            &&& cmds == seq![Command::ReportError { message: e }]
        },
        PendingResult::FriendApiError(e) => {
            &&& t == ClientState { friends: FriendsState { add_friend_error: Some(e), ..s.friends }, ..s }
            &&& cmds.len() == 0
        },
    }
}

impl ClientState {
    /// The state at start-up: the sign-in screen, nothing loaded, and new
    /// worlds themed "fantasy".
    pub fn new() -> (s: ClientState)
        ensures
            s.screen == Screen::Login,
            s.main_view == MainView::Welcome,
            !s.show_friends_sidebar,
            !s.connected,
            s.auth.is_blank(),
            s.chat.is_blank("fantasy"@),
            s.friends.is_blank(),
    {
        ClientState {
            screen: Screen::Login,
            auth: AuthState::new(),
            chat: ChatState::new("fantasy".to_owned()),
            friends: FriendsState::new(),
            main_view: MainView::Welcome,
            show_friends_sidebar: false,
            connected: false,
        }
    }

    /// Applies an answer from the server; the result lists what to do next.
    pub fn apply_result(&mut self, r: PendingResult) -> (cmds: Vec<Command>)
        ensures
            result_applied(*old(self), r, *final(self), cmds@),
    {
        let mut cmds: Vec<Command> = Vec::new();
        match r {
            PendingResult::AuthSuccess { token, user_id, username } => {
                let t2 = token.clone();
                self.auth.token = token;
                self.auth.user_id = Some(user_id);
                self.auth.username = username;
                self.auth.error = None;
                self.connected = true;
                self.screen = Screen::Main;
                cmds.push(Command::ConnectSocket { token: t2 });
                cmds.push(Command::LoadWorlds);
                cmds.push(Command::LoadFriends);
            },
            PendingResult::AuthError(e) => {
                self.auth.error = Some(e);
            },
            PendingResult::WorldsLoaded(w) => {
                self.chat.worlds = w;
            },
            PendingResult::LocationsLoaded(l) => {
                self.chat.locations = l;
                self.chat.selected_location = None;
                self.chat.messages.clear();
            },
            PendingResult::MessagesLoaded(m) => {
                self.chat.messages = m;
            },
            PendingResult::WorldCreated(w) => {
                let id = w.id;
                self.chat.worlds.push(w);
                self.chat.selected_world = Some(id);
                self.chat.show_create_world = false;
                cmds.push(Command::LoadLocations { world_id: id });
            },
            PendingResult::LocationCreated(l) => {
                let id = l.id;
                self.chat.locations.push(l);
                self.chat.show_create_location = false;
                match self.chat.selected_world {
                    Some(wid) => {
                        if self.connected {
                            cmds.push(Command::JoinLocation { location_id: id });
                        }
                        self.chat.selected_location = Some(id);
                        self.main_view = MainView::LocationChat;
                        cmds.push(Command::LoadMessages { world_id: wid, location_id: id });
                        proof {
                            let last = seq![Command::LoadMessages { world_id: wid, location_id: id }];
                            if old(self).connected {
                                assert(cmds@ =~= seq![Command::JoinLocation { location_id: id }] + last);
                            } else {
                                assert(cmds@ =~= Seq::<Command>::empty() + last);
                            }
                        }
                    },
                    None => {},
                }
            },
            PendingResult::FriendsLoaded(resp) => {
                self.friends.friends = resp.friends;
                self.friends.pending_incoming = resp.pending_incoming;
                self.friends.pending_outgoing = resp.pending_outgoing;
            },
            PendingResult::DmHistoryLoaded(m) => {
                self.friends.dm_messages = m;
            },
            PendingResult::FriendRequestSent(req) => {
                self.friends.pending_outgoing.push(req);
                self.friends.add_friend_error = None;
                self.friends.add_friend_input = String::new();
            },
            PendingResult::FriendAccepted(req) => {
                self.friends.pending_incoming = requests_without(&self.friends.pending_incoming, req.id);
                let entry = peer_of_accepted(&req, self.auth.user_id);
                self.friends.friends.push(entry);
            },
            PendingResult::FriendRemoved(fid) => {
                self.forget_request(fid);
                cmds.push(Command::LoadFriends);
            },
            PendingResult::ApiError(e) => {
                cmds.push(Command::ReportError { message: e });
            },
            PendingResult::FriendApiError(e) => {
                self.friends.add_friend_error = Some(e);
            },
        }
        proof {
            if cmds@.len() == 3 {
                assert(cmds@ =~= seq![cmds@[0], cmds@[1], cmds@[2]]);
            }
        }
        cmds
    }

    /// A friendship is gone: its request leaves both pending lists. The
    /// open conversation's friend would be dropped only if the request were
    /// still pending, which it no longer is, so the friends stay as they are.
    fn forget_request(&mut self, fid: u128)
        ensures
            final(self).friends.pending_incoming@ == old(self).friends.pending_incoming@.filter(
                other_request(fid),
            ),
            final(self).friends.pending_outgoing@ == old(self).friends.pending_outgoing@.filter(
                other_request(fid),
            ),
            *final(self) == (ClientState {
                friends: FriendsState {
                    pending_incoming: final(self).friends.pending_incoming,
                    pending_outgoing: final(self).friends.pending_outgoing,
                    ..old(self).friends
                },
                ..*old(self)
            }),
    {
        self.friends.pending_incoming = requests_without(&self.friends.pending_incoming, fid);
        self.friends.pending_outgoing = requests_without(&self.friends.pending_outgoing, fid);
        proof {
            let inc = self.friends.pending_incoming@;
            let out = self.friends.pending_outgoing@;
            assert forall|k: int| 0 <= k < inc.len() implies inc[k].id != fid by {
                old(self).friends.pending_incoming@.lemma_filter_pred(other_request(fid), k);
            }
            assert forall|k: int| 0 <= k < out.len() implies out[k].id != fid by {
                old(self).friends.pending_outgoing@.lemma_filter_pred(other_request(fid), k);
            }
        }
        match self.friends.active_dm_peer {
            Some(peer_id) => {
                if has_friend(&self.friends.friends, peer_id) {
                    match friend_position(&self.friends.friends, peer_id) {
                        Some(idx) => {
                            if has_request(&self.friends.pending_incoming, fid) || has_request(
                                &self.friends.pending_outgoing,
                                fid,
                            ) {
                                self.friends.friends.remove(idx);
                            }
                        },
                        None => {},
                    }
                }
            },
            None => {},
        }
    }
}


/// Keeps the messages posted in the selected location.
pub open spec fn in_location(selected: Option<u128>) -> spec_fn(ChatMessage) -> bool {
    |m: ChatMessage| selected == Some(m.location_id)
}

/// Keeps the direct messages sent to or by the open conversation's friend.
pub open spec fn in_conversation(peer: Option<u128>) -> spec_fn(DirectMessage) -> bool {
    |d: DirectMessage| peer == Some(d.sender_id) || peer == Some(d.receiver_id)
}

/// The friends panel as far as friendship notices change it: the friends,
/// the incoming and outgoing requests, and the count of unread requests.
pub type FriendsView = (Seq<FriendEntry>, Seq<FriendRequest>, Seq<FriendRequest>, int);

/// One friendship notice: an accepted friendship leaves the outgoing
/// requests and adds its other party to the friends unless already there; a
/// pending one is a new incoming request, unread.
pub open spec fn notice_step(v: FriendsView, req: FriendRequest, me: Option<u128>) -> FriendsView {
    if req.status == FriendStatus::Accepted {
        let p = accepted_peer(req, me);
        (
            if has_friend_spec(v.0, p.user_id) {
                v.0
            } else {
                v.0.push(p)
            },
            v.1,
            v.2.filter(other_request(req.id)),
            v.3,
        )
    } else {
        (v.0, v.1.push(req), v.2, v.3 + 1)
    }
}

/// The notices `reqs`, one after the other.
pub open spec fn notices_applied(v: FriendsView, reqs: Seq<FriendRequest>, me: Option<u128>) -> FriendsView
    decreases reqs.len(),
{
    if reqs.len() == 0 {
        v
    } else {
        notice_step(notices_applied(v, reqs.drop_last(), me), reqs.last(), me)
    }
}

/// The friends panel of `s` as `FriendsView` sees it.
pub open spec fn friends_view(s: FriendsState) -> FriendsView {
    (s.friends@, s.pending_incoming@, s.pending_outgoing@, s.unread_requests as int)
}

/// No user appears twice among the friends.
pub open spec fn friends_distinct(s: Seq<FriendEntry>) -> bool {
    forall|i: int, j: int| 0 <= i < j < s.len() ==> s[i].user_id != s[j].user_id
}

/// The number of pending notices in `reqs`.
pub open spec fn pending_count(reqs: Seq<FriendRequest>) -> int
    decreases reqs.len(),
{
    if reqs.len() == 0 {
        0
    } else {
        pending_count(reqs.drop_last()) + if reqs.last().status == FriendStatus::Accepted {
            0int
        } else {
            1int
        }
    }
}

/// An accepted friendship brings its other party among the friends, under
/// that party's own id and name: the addressee for a request the signed-in
/// user `me` sent, the requester for one `me` received. A party already
/// among the friends is not added again; the pending requests and the
/// unread count are as before, but for the accepted request, which leaves
/// the outgoing ones.
pub proof fn lemma_accepted_notice_adds_the_other_party(v: FriendsView, req: FriendRequest, me: Option<u128>)
    requires
        req.status == FriendStatus::Accepted,
    ensures
        ({
            let t = notices_applied(v, seq![req], me);
            let (id, name) = if me == Some(req.requester_id) {
                (req.addressee_id, req.addressee_name)
            } else {
                (req.requester_id, req.requester_name)
            };
            &&& (exists|k: int| 0 <= k < v.0.len() && v.0[k].user_id == id) ==> t.0 == v.0
            &&& !(exists|k: int| 0 <= k < v.0.len() && v.0[k].user_id == id) ==> t.0 == v.0.push(
                FriendEntry { user_id: id, username: name },
            )
            &&& t.1 == v.1
            &&& t.2 == v.2.filter(other_request(req.id))
            &&& t.3 == v.3
        }),
{
    let s = seq![req];
    assert(s.drop_last() =~= Seq::<FriendRequest>::empty());
    assert(notices_applied(v, s.drop_last(), me) == v);
    assert(s.last() == req);
}

/// A pending friendship notice is a new incoming request, counted unread;
/// the friends and the outgoing requests are as before.
pub proof fn lemma_pending_notice_is_unread(v: FriendsView, req: FriendRequest, me: Option<u128>)
    requires
        req.status == FriendStatus::Pending,
    ensures
        notices_applied(v, seq![req], me) == (v.0, v.1.push(req), v.2, v.3 + 1),
{
    let s = seq![req];
    assert(s.drop_last() =~= Seq::<FriendRequest>::empty());
    assert(notices_applied(v, s.drop_last(), me) == v);
    assert(s.last() == req);
}

/// Accepting a request that the signed-in user received adds its requester
/// to the friends, under the requester's id and name, and takes the request
/// off the incoming list.
pub proof fn lemma_accepting_adds_the_requester(s: ClientState, req: FriendRequest, t: ClientState, cmds: Seq<Command>)
    requires
        result_applied(s, PendingResult::FriendAccepted(req), t, cmds),
        s.auth.user_id == Some(req.addressee_id),
        req.requester_id != req.addressee_id,
    ensures
        t.friends.friends@ == s.friends.friends@.push(
            FriendEntry { user_id: req.requester_id, username: req.requester_name },
        ),
        forall|k: int| 0 <= k < t.friends.pending_incoming@.len() ==> #[trigger] t.friends.pending_incoming@[k].id
            != req.id,
{
    let p = other_request(req.id);
    assert forall|k: int| 0 <= k < t.friends.pending_incoming@.len() implies #[trigger] t.friends.pending_incoming@[k].id
        != req.id by {
        s.friends.pending_incoming@.lemma_filter_pred(p, k);
    }
}

/// Friendship notices never list a friend twice: if no user was among the
/// friends twice before, none is after.
pub proof fn lemma_notices_keep_friends_distinct(v: FriendsView, reqs: Seq<FriendRequest>, me: Option<u128>)
    requires
        friends_distinct(v.0),
    ensures
        friends_distinct(notices_applied(v, reqs, me).0),
    decreases reqs.len(),
{
    if reqs.len() > 0 {
        lemma_notices_keep_friends_distinct(v, reqs.drop_last(), me);
    }
}

/// Each pending notice, and nothing else, counts one more unread request.
pub proof fn lemma_notices_count_unread(v: FriendsView, reqs: Seq<FriendRequest>, me: Option<u128>)
    ensures
        notices_applied(v, reqs, me).3 == v.3 + pending_count(reqs),
    decreases reqs.len(),
{
    if reqs.len() > 0 {
        lemma_notices_count_unread(v, reqs.drop_last(), me);
    }
}

proof fn lemma_pending_count_bounds(reqs: Seq<FriendRequest>)
    ensures
        0 <= pending_count(reqs) <= reqs.len(),
    decreases reqs.len(),
{
    if reqs.len() > 0 {
        lemma_pending_count_bounds(reqs.drop_last());
    }
}

impl ClientState {
    /// Messages that arrived on the real-time channel: those of the selected
    /// location are appended to the open chat, the others are dropped.
    pub fn receive_chat_messages(&mut self, msgs: Vec<ChatMessage>)
        ensures
            final(self).chat.messages@ == old(self).chat.messages@ + msgs@.filter(
                in_location(old(self).chat.selected_location),
            ),
            *final(self) == (ClientState {
                chat: ChatState { messages: final(self).chat.messages, ..old(self).chat },
                ..*old(self)
            }),
    {
        let ghost orig = *self;
        let ghost pred = in_location(orig.chat.selected_location);
        let selected = self.chat.selected_location;
        let mut i: usize = 0;
        assert(msgs@.take(0) =~= Seq::<ChatMessage>::empty());
        proof {
            reveal(Seq::filter);
        }
        assert(orig.chat.messages@ + msgs@.take(0).filter(pred) =~= orig.chat.messages@);
        while i < msgs.len()
            invariant
                i <= msgs@.len(),
                selected == orig.chat.selected_location,
                pred == in_location(orig.chat.selected_location),
                self.chat.messages@ == orig.chat.messages@ + msgs@.take(i as int).filter(pred),
                *self == (ClientState {
                    chat: ChatState { messages: self.chat.messages, ..orig.chat },
                    ..orig
                }),
            decreases msgs@.len() - i,
        {
            proof {
                assert(msgs@.take(i + 1) =~= msgs@.take(i as int).push(msgs@[i as int]));
                msgs@.take(i as int).lemma_filter_push(msgs@[i as int], pred);
            }
            let for_here = match selected {
                Some(l) => l == msgs[i].location_id,
                None => false,
            };
            if for_here {
                self.chat.messages.push(msgs[i].duplicate());
            }
            i = i + 1;
        }
        assert(msgs@.take(i as int) =~= msgs@);
    }

    /// Direct messages that arrived on the real-time channel: those to or
    /// from the open conversation's friend are appended, the others dropped.
    pub fn receive_direct_messages(&mut self, dms: Vec<DirectMessage>)
        ensures
            final(self).friends.dm_messages@ == old(self).friends.dm_messages@ + dms@.filter(
                in_conversation(old(self).friends.active_dm_peer),
            ),
            *final(self) == (ClientState {
                friends: FriendsState { dm_messages: final(self).friends.dm_messages, ..old(self).friends },
                ..*old(self)
            }),
    {
        let ghost orig = *self;
        let ghost pred = in_conversation(orig.friends.active_dm_peer);
        let peer = self.friends.active_dm_peer;
        let mut i: usize = 0;
        assert(dms@.take(0) =~= Seq::<DirectMessage>::empty());
        proof {
            reveal(Seq::filter);
        }
        assert(orig.friends.dm_messages@ + dms@.take(0).filter(pred) =~= orig.friends.dm_messages@);
        while i < dms.len()
            invariant
                i <= dms@.len(),
                peer == orig.friends.active_dm_peer,
                pred == in_conversation(orig.friends.active_dm_peer),
                self.friends.dm_messages@ == orig.friends.dm_messages@ + dms@.take(i as int).filter(pred),
                *self == (ClientState {
                    friends: FriendsState { dm_messages: self.friends.dm_messages, ..orig.friends },
                    ..orig
                }),
            decreases dms@.len() - i,
        {
            proof {
                assert(dms@.take(i + 1) =~= dms@.take(i as int).push(dms@[i as int]));
                dms@.take(i as int).lemma_filter_push(dms@[i as int], pred);
            }
            let ours = match peer {
                Some(p) => p == dms[i].sender_id || p == dms[i].receiver_id,
                None => false,
            };
            if ours {
                self.friends.dm_messages.push(dms[i].duplicate());
            }
            i = i + 1;
        }
        assert(dms@.take(i as int) =~= dms@);
    }

    /// Friendship notices that arrived on the real-time channel, applied in
    /// order as `notice_step` says.
    pub fn receive_friend_requests(&mut self, reqs: Vec<FriendRequest>)
        requires
            old(self).friends.unread_requests + reqs@.len() <= usize::MAX,
        ensures
            friends_view(final(self).friends) == notices_applied(
                friends_view(old(self).friends),
                reqs@,
                old(self).auth.user_id,
            ),
            *final(self) == (ClientState {
                friends: FriendsState {
                    friends: final(self).friends.friends,
                    pending_incoming: final(self).friends.pending_incoming,
                    pending_outgoing: final(self).friends.pending_outgoing,
                    unread_requests: final(self).friends.unread_requests,
                    ..old(self).friends
                },
                ..*old(self)
            }),
    {
        let ghost orig = *self;
        let ghost v0 = friends_view(orig.friends);
        let me = self.auth.user_id;
        let mut i: usize = 0;
        assert(reqs@.take(0) =~= Seq::<FriendRequest>::empty());
        while i < reqs.len()
            invariant
                i <= reqs@.len(),
                me == orig.auth.user_id,
                v0 == friends_view(orig.friends),
                orig.friends.unread_requests + reqs@.len() <= usize::MAX,
                friends_view(self.friends) == notices_applied(v0, reqs@.take(i as int), me),
                *self == (ClientState {
                    friends: FriendsState {
                        friends: self.friends.friends,
                        pending_incoming: self.friends.pending_incoming,
                        pending_outgoing: self.friends.pending_outgoing,
                        unread_requests: self.friends.unread_requests,
                        ..orig.friends
                    },
                    ..orig
                }),
            decreases reqs@.len() - i,
        {
            proof {
                assert(reqs@.take(i + 1).drop_last() =~= reqs@.take(i as int));
                lemma_notices_count_unread(v0, reqs@.take(i as int), me);
                lemma_pending_count_bounds(reqs@.take(i as int));
            }
            let req = &reqs[i];
            if req.status == FriendStatus::Accepted {
                self.friends.pending_outgoing = requests_without(&self.friends.pending_outgoing, req.id);
                let entry = peer_of_accepted(req, me);
                if !has_friend(&self.friends.friends, entry.user_id) {
                    self.friends.friends.push(entry);
                }
            } else {
                self.friends.unread_requests = self.friends.unread_requests + 1;
                self.friends.pending_incoming.push(req.duplicate());
            }
            i = i + 1;
        }
        assert(reqs@.take(i as int) =~= reqs@);
    }
}


impl ClientState {
    /// The sign-in form was submitted: a login on the login screen, a
    /// registration on the other.
    pub fn submit_sign_in(&self) -> (c: Command)
        ensures
            c == (if self.screen == Screen::Login {
                Command::Login {
                    username: self.auth.login_username,
                    password: self.auth.login_password,
                }
            } else {
                Command::Register {
                    username: self.auth.register_username,
                    password: self.auth.register_password,
                }
            }),
    {
        if self.screen == Screen::Login {
            Command::Login {
                username: self.auth.login_username.clone(),
                password: self.auth.login_password.clone(),
            }
        } else {
            Command::Register {
                username: self.auth.register_username.clone(),
                password: self.auth.register_password.clone(),
            }
        }
    }

    /// Switches the sign-in form to registration, clearing its error.
    pub fn show_register(&mut self)
        ensures
            *final(self) == (ClientState {
                screen: Screen::Register,
                auth: AuthState { error: None, ..old(self).auth },
                ..*old(self)
            }),
    {
        self.screen = Screen::Register;
        self.auth.error = None;
    }

    /// Switches the sign-in form to login, clearing its error.
    pub fn show_login(&mut self)
        ensures
            *final(self) == (ClientState {
                screen: Screen::Login,
                auth: AuthState { error: None, ..old(self).auth },
                ..*old(self)
            }),
    {
        self.screen = Screen::Login;
        self.auth.error = None;
    }

    /// A world was clicked. Another world than the selected one becomes
    /// selected, its locations are loaded and the chat is closed.
    pub fn select_world(&mut self, world_id: u128) -> (cmds: Vec<Command>)
        ensures
            if old(self).chat.selected_world == Some(world_id) {
                *final(self) == *old(self) && cmds@.len() == 0
            } else {
                &&& final(self).chat.messages@.len() == 0
                &&& *final(self) == (ClientState {
                    chat: ChatState {
                        selected_world: Some(world_id),
                        selected_location: None,
                        messages: final(self).chat.messages,
                        ..old(self).chat
                    },
                    main_view: MainView::Welcome,
                    ..*old(self)
                })
                &&& cmds@ == seq![Command::LoadLocations { world_id }]
            },
    {
        let mut cmds: Vec<Command> = Vec::new();
        let already = match self.chat.selected_world {
            Some(w) => w == world_id,
            None => false,
        };
        if !already {
            self.chat.selected_world = Some(world_id);
            self.chat.selected_location = None;
            self.chat.messages.clear();
            self.main_view = MainView::Welcome;
            cmds.push(Command::LoadLocations { world_id });
            assert(cmds@ =~= seq![Command::LoadLocations { world_id }]);
        }
        cmds
    }

    /// Opens the form that creates a world.
    pub fn open_create_world(&mut self)
        ensures
            *final(self) == (ClientState {
                chat: ChatState { show_create_world: true, ..old(self).chat },
                ..*old(self)
            }),
    {
        self.chat.show_create_world = true;
    }

    /// Closes the form that creates a world.
    pub fn cancel_create_world(&mut self)
        ensures
            *final(self) == (ClientState {
                chat: ChatState { show_create_world: false, ..old(self).chat },
                ..*old(self)
            }),
    {
        self.chat.show_create_world = false;
    }

    /// Shows or hides the friends panel; showing it marks every request read.
    pub fn toggle_friends_sidebar(&mut self)
        ensures
            final(self).show_friends_sidebar == !old(self).show_friends_sidebar,
            *final(self) == (ClientState {
                show_friends_sidebar: !old(self).show_friends_sidebar,
                friends: FriendsState {
                    unread_requests: if !old(self).show_friends_sidebar {
                        0
                    } else {
                        old(self).friends.unread_requests
                    },
                    ..old(self).friends
                },
                ..*old(self)
            }),
    {
        self.show_friends_sidebar = !self.show_friends_sidebar;
        if self.show_friends_sidebar {
            self.friends.unread_requests = 0;
        }
    }

    /// A location of the selected world was clicked. Another location than
    /// the open one is opened: joined on the real-time channel, its history
    /// loaded, and any direct conversation closed.
    pub fn select_location(&mut self, location_id: u128) -> (cmds: Vec<Command>)
        ensures
            match old(self).chat.selected_world {
                None => *final(self) == *old(self) && cmds@.len() == 0,
                Some(wid) => if old(self).chat.selected_location == Some(location_id) {
                    *final(self) == *old(self) && cmds@.len() == 0
                } else {
                    &&& final(self).chat.messages@.len() == 0
                    &&& *final(self) == (ClientState {
                        chat: ChatState {
                            selected_location: Some(location_id),
                            messages: final(self).chat.messages,
                            ..old(self).chat
                        },
                        main_view: MainView::LocationChat,
                        friends: FriendsState { active_dm_peer: None, ..old(self).friends },
                        ..*old(self)
                    })
                    &&& cmds@ == (if old(self).connected {
                        seq![Command::JoinLocation { location_id }]
                    } else {
                        Seq::empty()
                    }) + seq![Command::LoadMessages { world_id: wid, location_id }]
                },
            },
    {
        let mut cmds: Vec<Command> = Vec::new();
        match self.chat.selected_world {
            None => {},
            Some(wid) => {
                let already = match self.chat.selected_location {
                    Some(l) => l == location_id,
                    None => false,
                };
                if !already {
                    self.chat.selected_location = Some(location_id);
                    self.chat.messages.clear();
                    self.main_view = MainView::LocationChat;
                    self.friends.active_dm_peer = None;
                    if self.connected {
                        cmds.push(Command::JoinLocation { location_id });
                    }
                    cmds.push(Command::LoadMessages { world_id: wid, location_id });
                    proof {
                        let last = seq![Command::LoadMessages { world_id: wid, location_id }];
                        if old(self).connected {
                            assert(cmds@ =~= seq![Command::JoinLocation { location_id }] + last);
                        } else {
                            assert(cmds@ =~= Seq::<Command>::empty() + last);
                        }
                    }
                }
            },
        }
        cmds
    }

    /// Opens the form that creates a location.
    pub fn open_create_location(&mut self)
        ensures
            *final(self) == (ClientState {
                chat: ChatState { show_create_location: true, ..old(self).chat },
                ..*old(self)
            }),
    {
        self.chat.show_create_location = true;
    }

    /// Closes the form that creates a location.
    pub fn cancel_create_location(&mut self)
        ensures
            *final(self) == (ClientState {
                chat: ChatState { show_create_location: false, ..old(self).chat },
                ..*old(self)
            }),
    {
        self.chat.show_create_location = false;
    }

    /// The "add friend" button: a request to the trimmed name typed, unless
    /// only white space was typed.
    pub fn request_friend(&self) -> (cmds: Vec<Command>)
        ensures
            if trimmed(self.friends.add_friend_input@).len() == 0 {
                cmds@.len() == 0
            } else {
                &&& cmds@.len() == 1
                &&& cmds@[0] matches Command::SendFriendRequest { username }
                &&& username@ == trimmed(self.friends.add_friend_input@)
            },
    {
        let mut cmds: Vec<Command> = Vec::new();
        if !is_blank(self.friends.add_friend_input.as_str()) {
            cmds.push(
                Command::SendFriendRequest {
                    username: trimmed_owned(self.friends.add_friend_input.as_str()),
                },
            );
        }
        cmds
    }

    /// Opens the direct conversation with a friend and loads its history;
    /// any open location is closed.
    pub fn open_dm(&mut self, peer_id: u128) -> (cmds: Vec<Command>)
        ensures
            final(self).friends.dm_messages@.len() == 0,
            final(self).friends.dm_compose@ == Seq::<char>::empty(),
            *final(self) == (ClientState {
                friends: FriendsState {
                    active_dm_peer: Some(peer_id),
                    dm_messages: final(self).friends.dm_messages,
                    dm_compose: final(self).friends.dm_compose,
                    ..old(self).friends
                },
                main_view: MainView::DirectMessage,
                chat: ChatState { selected_location: None, ..old(self).chat },
                ..*old(self)
            }),
            cmds@ == seq![Command::LoadDmHistory { peer_id }],
    {
        self.friends.active_dm_peer = Some(peer_id);
        self.friends.dm_messages.clear();
        self.friends.dm_compose = String::new();
        self.main_view = MainView::DirectMessage;
        self.chat.selected_location = None;
        let mut cmds: Vec<Command> = Vec::new();
        cmds.push(Command::LoadDmHistory { peer_id });
        assert(cmds@ =~= seq![Command::LoadDmHistory { peer_id }]);
        cmds
    }

    /// Sends the chat composer's trimmed text to the open location, unless
    /// no location is open or only white space was typed; a sent text
    /// empties the composer.
    pub fn send_chat(&mut self) -> (cmds: Vec<Command>)
        ensures
            match old(self).chat.selected_location {
                None => *final(self) == *old(self) && cmds@.len() == 0,
                Some(loc) => if trimmed(old(self).chat.compose_text@).len() == 0 {
                    *final(self) == *old(self) && cmds@.len() == 0
                } else {
                    &&& final(self).chat.compose_text@ == Seq::<char>::empty()
                    &&& *final(self) == (ClientState {
                        chat: ChatState { compose_text: final(self).chat.compose_text, ..old(self).chat },
                        ..*old(self)
                    })
                    &&& if old(self).connected {
                        &&& cmds@.len() == 1
                        &&& cmds@[0] matches Command::SendChat { location_id, content }
                        &&& location_id == loc
                        &&& content@ == trimmed(old(self).chat.compose_text@)
                    } else {
                        cmds@.len() == 0
                    }
                },
            },
    {
        let mut cmds: Vec<Command> = Vec::new();
        match self.chat.selected_location {
            None => {},
            Some(loc) => {
                if !is_blank(self.chat.compose_text.as_str()) {
                    if self.connected {
                        cmds.push(
                            Command::SendChat {
                                location_id: loc,
                                content: trimmed_owned(self.chat.compose_text.as_str()),
                            },
                        );
                    }
                    self.chat.compose_text = String::new();
                }
            },
        }
        cmds
    }

    /// Sends the direct composer's trimmed text to the open conversation's
    /// friend, unless none is open or only white space was typed; a sent
    /// text empties the composer.
    pub fn send_dm(&mut self) -> (cmds: Vec<Command>)
        ensures
            match old(self).friends.active_dm_peer {
                None => *final(self) == *old(self) && cmds@.len() == 0,
                Some(peer) => if trimmed(old(self).friends.dm_compose@).len() == 0 {
                    *final(self) == *old(self) && cmds@.len() == 0
                } else {
                    &&& final(self).friends.dm_compose@ == Seq::<char>::empty()
                    &&& *final(self) == (ClientState {
                        friends: FriendsState { dm_compose: final(self).friends.dm_compose, ..old(self).friends },
                        ..*old(self)
                    })
                    &&& if old(self).connected {
                        &&& cmds@.len() == 1
                        &&& cmds@[0] matches Command::SendDm { receiver_id, content }
                        &&& receiver_id == peer
                        &&& content@ == trimmed(old(self).friends.dm_compose@)
                    } else {
                        cmds@.len() == 0
                    }
                },
            },
    {
        let mut cmds: Vec<Command> = Vec::new();
        match self.friends.active_dm_peer {
            None => {},
            Some(peer) => {
                if !is_blank(self.friends.dm_compose.as_str()) {
                    if self.connected {
                        cmds.push(
                            Command::SendDm {
                                receiver_id: peer,
                                content: trimmed_owned(self.friends.dm_compose.as_str()),
                            },
                        );
                    }
                    self.friends.dm_compose = String::new();
                }
            },
        }
        cmds
    }

    /// Submits the world form: a world with the trimmed name and description
    /// and the chosen theme, unless the name is blank; a submitted form is
    /// emptied (it stays open until the world arrives).
    pub fn create_world(&mut self) -> (cmds: Vec<Command>)
        ensures
            if trimmed(old(self).chat.new_world_name@).len() == 0 {
                *final(self) == *old(self) && cmds@.len() == 0
            } else {
                &&& final(self).chat.new_world_name@ == Seq::<char>::empty()
                &&& final(self).chat.new_world_description@ == Seq::<char>::empty()
                &&& *final(self) == (ClientState {
                    chat: ChatState {
                        new_world_name: final(self).chat.new_world_name,
                        new_world_description: final(self).chat.new_world_description,
                        ..old(self).chat
                    },
                    ..*old(self)
                })
                &&& cmds@.len() == 1
                &&& cmds@[0] matches Command::CreateWorld { name, description, theme }
                &&& name@ == trimmed(old(self).chat.new_world_name@)
                &&& description@ == trimmed(old(self).chat.new_world_description@)
                &&& theme == old(self).chat.new_world_theme
            },
    {
        let mut cmds: Vec<Command> = Vec::new();
        if !is_blank(self.chat.new_world_name.as_str()) {
            let name = trimmed_owned(self.chat.new_world_name.as_str());
            let description = trimmed_owned(self.chat.new_world_description.as_str());
            let theme = self.chat.new_world_theme.clone();
            cmds.push(Command::CreateWorld { name, description, theme });
            self.chat.new_world_name = String::new();
            self.chat.new_world_description = String::new();
        }
        cmds
    }

    /// Submits the location form: a location with the trimmed name in the
    /// selected world, unless the name is blank or no world is selected; a
    /// submitted form is emptied.
    pub fn create_location(&mut self) -> (cmds: Vec<Command>)
        ensures
            if trimmed(old(self).chat.new_location_name@).len() == 0
                || old(self).chat.selected_world is None {
                *final(self) == *old(self) && cmds@.len() == 0
            } else {
                &&& final(self).chat.new_location_name@ == Seq::<char>::empty()
                &&& *final(self) == (ClientState {
                    chat: ChatState { new_location_name: final(self).chat.new_location_name, ..old(self).chat },
                    ..*old(self)
                })
                &&& cmds@.len() == 1
                &&& cmds@[0] matches Command::CreateLocation { world_id, name }
                &&& Some(world_id) == old(self).chat.selected_world
                &&& name@ == trimmed(old(self).chat.new_location_name@)
            },
    {
        let mut cmds: Vec<Command> = Vec::new();
        if !is_blank(self.chat.new_location_name.as_str()) {
            match self.chat.selected_world {
                Some(wid) => {
                    let name = trimmed_owned(self.chat.new_location_name.as_str());
                    cmds.push(Command::CreateLocation { world_id: wid, name });
                    self.chat.new_location_name = String::new();
                },
                None => {},
            }
        }
        cmds
    }
}

/// The answer that a failed request becomes: a failed sign-in is shown on
/// the sign-in form, a failed friend request on the friends panel, and any
/// other failure is only reported.
pub fn request_failed(cmd: &Command, message: String) -> (r: PendingResult)
    ensures
        r == (match *cmd {
            Command::Login { .. } | Command::Register { .. } => PendingResult::AuthError(message),
            Command::SendFriendRequest { .. } => PendingResult::FriendApiError(message),
            _ => PendingResult::ApiError(message),
        }),
{
    match cmd {
        Command::Login { .. } | Command::Register { .. } => PendingResult::AuthError(message),
        Command::SendFriendRequest { .. } => PendingResult::FriendApiError(message),
        _ => PendingResult::ApiError(message),
    }
}

/// The request to accept friendship `friendship_id`.
pub fn accept_request(friendship_id: u128) -> (c: Command)
    ensures
        c == (Command::AcceptFriendRequest { friendship_id }),
{
    Command::AcceptFriendRequest { friendship_id }
}

/// The request that ends friendship `friendship_id`: declining an incoming
/// request and cancelling an outgoing one are both a removal.
pub fn remove_request(friendship_id: u128) -> (c: Command)
    ensures
        c == (Command::RemoveFriend { friendship_id }),
{
    Command::RemoveFriend { friendship_id }
}

} // verus!
