//! What the desktop client keeps on screen: the current screen and view,
//! the session, the worlds and chat, and the friends panel.

use vstd::prelude::*;
use crate::models::{ChatMessage, DirectMessage, FriendRequest, Location, World};
use crate::protocol::FriendEntry;
use crate::time::Timestamp;
use vstd::string::{StrSliceExecFns, StringExecFns};

verus! {

/// The screen the client shows.
#[derive(Clone, Copy, Debug, PartialEq, Eq, Structural)]
pub enum Screen {
    Login,
    Register,
    Main,
}

impl Default for Screen {
    fn default() -> (s: Screen)
        ensures
            s == Screen::Login,
    {
        Screen::Login
    }
}

/// What the main panel shows.
#[derive(Clone, Copy, Debug, PartialEq, Eq, Structural)]
pub enum MainView {
    Welcome,
    LocationChat,
    DirectMessage,
}

impl Default for MainView {
    fn default() -> (v: MainView)
        ensures
            v == MainView::Welcome,
    {
        MainView::Welcome
    }
}

/// The session and the sign-in forms.
#[derive(Clone, Debug)]
pub struct AuthState {
    pub token: String,
    pub user_id: Option<u128>,
    pub username: String,
    pub login_username: String,
    pub login_password: String,
    pub register_username: String,
    pub register_password: String,
    pub error: Option<String>,
}

/// The worlds, their locations, the open location's messages and the forms
/// that create worlds and locations.
#[derive(Clone, Debug)]
pub struct ChatState {
    pub worlds: Vec<World>,
    pub selected_world: Option<u128>,
    pub locations: Vec<Location>,
    pub selected_location: Option<u128>,
    pub messages: Vec<ChatMessage>,
    pub compose_text: String,
    pub new_world_name: String,
    pub new_world_description: String,
    pub new_world_theme: String,
    pub new_location_name: String,
    pub show_create_world: bool,
    pub show_create_location: bool,
}

/// The friends panel and the open direct conversation.
#[derive(Clone, Debug)]
pub struct FriendsState {
    pub friends: Vec<FriendEntry>,
    pub pending_incoming: Vec<FriendRequest>,
    pub pending_outgoing: Vec<FriendRequest>,
    pub add_friend_input: String,
    pub add_friend_error: Option<String>,
    pub active_dm_peer: Option<u128>,
    pub dm_messages: Vec<DirectMessage>,
    pub dm_compose: String,
    pub unread_requests: usize,
}

impl AuthState {
    /// Signed out, with empty forms and no error.
    pub open spec fn is_blank(&self) -> bool {
        &&& self.token@ == Seq::<char>::empty()
        &&& self.user_id is None
        &&& self.username@ == Seq::<char>::empty()
        &&& self.login_username@ == Seq::<char>::empty()
        &&& self.login_password@ == Seq::<char>::empty()
        &&& self.register_username@ == Seq::<char>::empty()
        &&& self.register_password@ == Seq::<char>::empty()
        &&& self.error is None
    }

    /// Signed out, with empty forms.
    pub fn new() -> (s: AuthState)
        ensures
            s.is_blank(),
    {
        AuthState {
            token: String::new(),
            user_id: None,
            username: String::new(),
            login_username: String::new(),
            login_password: String::new(),
            register_username: String::new(),
            register_password: String::new(),
            error: None,
        }
    }
}

impl ChatState {
    /// Nothing loaded or selected, empty forms, both forms closed, and new
    /// worlds themed `theme`.
    pub open spec fn is_blank(&self, theme: Seq<char>) -> bool {
        &&& self.worlds@.len() == 0
        &&& self.selected_world is None
        &&& self.locations@.len() == 0
        &&& self.selected_location is None
        &&& self.messages@.len() == 0
        &&& self.compose_text@ == Seq::<char>::empty()
        &&& self.new_world_name@ == Seq::<char>::empty()
        &&& self.new_world_description@ == Seq::<char>::empty()
        &&& self.new_world_theme@ == theme
        &&& self.new_location_name@ == Seq::<char>::empty()
        &&& !self.show_create_world
        &&& !self.show_create_location
    }

    /// No worlds yet; new worlds get the theme `theme`.
    pub fn new(theme: String) -> (s: ChatState)
        ensures
            s.is_blank(theme@),
            s.new_world_theme == theme,
    {
        ChatState {
            worlds: Vec::new(),
            selected_world: None,
            locations: Vec::new(),
            selected_location: None,
            messages: Vec::new(),
            compose_text: String::new(),
            new_world_name: String::new(),
            new_world_description: String::new(),
            new_world_theme: theme,
            new_location_name: String::new(),
            show_create_world: false,
            show_create_location: false,
        }
    }
}

/// `i` is the first friend entry for `peer`.
pub open spec fn first_friend_at(friends: Seq<FriendEntry>, peer: u128, i: int) -> bool {
    &&& 0 <= i < friends.len()
    &&& friends[i].user_id == peer
    &&& forall|j: int| 0 <= j < i ==> friends[j].user_id != peer
}

impl FriendsState {
    /// No friends, requests or conversation, empty forms, nothing unread.
    pub open spec fn is_blank(&self) -> bool {
        &&& self.friends@.len() == 0
        &&& self.pending_incoming@.len() == 0
        &&& self.pending_outgoing@.len() == 0
        &&& self.add_friend_input@ == Seq::<char>::empty()
        &&& self.add_friend_error is None
        &&& self.active_dm_peer is None
        &&& self.dm_messages@.len() == 0
        &&& self.dm_compose@ == Seq::<char>::empty()
        &&& self.unread_requests == 0
    }

    /// No friends, requests or conversation.
    pub fn new() -> (s: FriendsState)
        ensures
            s.is_blank(),
    {
        FriendsState {
            friends: Vec::new(),
            pending_incoming: Vec::new(),
            pending_outgoing: Vec::new(),
            add_friend_input: String::new(),
            add_friend_error: None,
            active_dm_peer: None,
            dm_messages: Vec::new(),
            dm_compose: String::new(),
            unread_requests: 0,
        }
    }

    /// The name of the first friend with id `peer_id`, or "Unknown".
    pub fn peer_username<'a>(&'a self, peer_id: u128) -> (r: &'a str)
        ensures
            (exists|i: int| first_friend_at(self.friends@, peer_id, i)
                && r@ == self.friends@[i].username@)
            || ((forall|i: int| 0 <= i < self.friends@.len()
                ==> self.friends@[i].user_id != peer_id) && r@ == "Unknown"@),
    {
        let mut i: usize = 0;
        while i < self.friends.len()
            invariant
                i <= self.friends@.len(),
                forall|j: int| 0 <= j < i ==> self.friends@[j].user_id != peer_id,
            decreases self.friends@.len() - i,
        {
            if self.friends[i].user_id == peer_id {
                assert(first_friend_at(self.friends@, peer_id, i as int));
                return self.friends[i].username.as_str();
            }
            i = i + 1;
        }
        "Unknown"
    }
}


/// `i` is the first world with id `id`.
pub open spec fn first_world_at(worlds: Seq<World>, id: u128, i: int) -> bool {
    &&& 0 <= i < worlds.len()
    &&& worlds[i].id == id
    &&& forall|j: int| 0 <= j < i ==> worlds[j].id != id
}

/// `i` is the first location with id `id`.
pub open spec fn first_location_at(locations: Seq<Location>, id: u128, i: int) -> bool {
    &&& 0 <= i < locations.len()
    &&& locations[i].id == id
    &&& forall|j: int| 0 <= j < i ==> locations[j].id != id
}

impl ChatState {
    /// The name of the first world with id `world_id`, or "World".
    pub fn world_title<'a>(&'a self, world_id: u128) -> (r: &'a str)
        ensures
            (exists|i: int| first_world_at(self.worlds@, world_id, i) && r@ == self.worlds@[i].name@)
            || ((forall|i: int| 0 <= i < self.worlds@.len() ==> self.worlds@[i].id != world_id)
                && r@ == "World"@),
    {
        let mut i: usize = 0;
        while i < self.worlds.len()
            invariant
                i <= self.worlds@.len(),
                forall|j: int| 0 <= j < i ==> self.worlds@[j].id != world_id,
            decreases self.worlds@.len() - i,
        {
            if self.worlds[i].id == world_id {
                assert(first_world_at(self.worlds@, world_id, i as int));
                return self.worlds[i].name.as_str();
            }
            i = i + 1;
        }
        "World"
    }

    /// The name of the first location with id `location_id`, or nothing.
    pub fn location_title<'a>(&'a self, location_id: u128) -> (r: &'a str)
        ensures
            (exists|i: int| first_location_at(self.locations@, location_id, i)
                && r@ == self.locations@[i].name@)
            || ((forall|i: int| 0 <= i < self.locations@.len()
                ==> self.locations@[i].id != location_id) && r@ == ""@),
    {
        let mut i: usize = 0;
        while i < self.locations.len()
            invariant
                i <= self.locations@.len(),
                forall|j: int| 0 <= j < i ==> self.locations@[j].id != location_id,
            decreases self.locations@.len() - i,
        {
            if self.locations[i].id == location_id {
                assert(first_location_at(self.locations@, location_id, i as int));
                return self.locations[i].name.as_str();
            }
            i = i + 1;
        }
        ""
    }
}

/// The first character of `c`'s upper-case mapping, as
/// `char::to_uppercase` gives it.
pub uninterp spec fn upper_first(c: char) -> char;

/// Calls `char::to_uppercase` and takes its first character; the mapping
/// is never empty, so `'?'` is never taken. The contract claims that the
/// result is a function of `c`.
#[verifier::external_body]
fn uppercase_first(c: char) -> (r: char)
    ensures
        r == upper_first(c),
{
    c.to_uppercase().next().unwrap_or('?')
}

/// The badge of a world in the world list: the upper-cased first character
/// of its name, or '?' for an empty name.
pub fn world_initial(name: &str) -> (c: char)
    ensures
        c == (if name@.len() == 0 {
            '?'
        } else {
            upper_first(name@[0])
        }),
{
    if name.unicode_len() == 0 {
        '?'
    } else {
        uppercase_first(name.get_char(0))
    }
}

/// The hour and minute of `t` on a 24-hour clock in UTC, as a message's
/// time is shown.
pub open spec fn clock_spec(t: Timestamp) -> (int, int) {
    let day_secs = (t.secs as int) % 86400;
    (day_secs / 3600, (day_secs % 3600) / 60)
}

/// The hour and minute of `t`, shown beside a message.
pub fn clock_of(t: Timestamp) -> (r: (u8, u8))
    ensures
        r.0 as int == clock_spec(t).0,
        r.1 as int == clock_spec(t).1,
        r.0 < 24,
        r.1 < 60,
{
    let mut day_secs = t.secs % 86400;
    if day_secs < 0 {
        day_secs = day_secs + 86400;
    }
    assert(day_secs as int == (t.secs as int) % 86400);
    let hour = day_secs / 3600;
    let minute = (day_secs % 3600) / 60;
    (hour as u8, minute as u8)
}

/// The decimal digits of `n`, most significant first, without leading zeros.
pub open spec fn decimal(n: nat) -> Seq<char>
    decreases n,
{
    if n < 10 {
        seq!["0123456789"@[n as int]]
    } else {
        decimal(n / 10) + seq!["0123456789"@[(n % 10) as int]]
    }
}

/// Appends the decimal digits of `n` to `out`.
fn push_decimal(n: usize, out: &mut String)
    ensures
        final(out)@ == old(out)@ + decimal(n as nat),
    decreases n,
{
    proof {
        reveal_strlit("0123456789");
    }
    if n >= 10 {
        push_decimal(n / 10, out);
    }
    let d: usize = n % 10;
    let digit = "0123456789".substring_char(d, d + 1);
    assert(digit@ =~= seq!["0123456789"@[d as int]]);
    out.append(digit);
    assert(out@ =~= old(out)@ + decimal(n as nat));
}

/// The label of the friends button: "DM", with the number of unread friend
/// requests on a second line in brackets when there are any.
pub fn friends_badge(unread: usize) -> (r: String)
    ensures
        r@ == if unread == 0 {
            "DM"@
        } else {
            "DM\n("@ + decimal(unread as nat) + ")"@
        },
{
    if unread == 0 {
        return "DM".to_owned();
    }
    let mut text = "DM\n(".to_owned();
    push_decimal(unread, &mut text);
    text.append(")");
    text
}

} // verus!
