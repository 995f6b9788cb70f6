//! The client's side of the real-time channel: what each incoming message is
//! for, and the message that each outgoing command becomes.

use vstd::prelude::*;
use crate::client_app::Command;
use crate::models::{ChatMessage, DirectMessage, FriendRequest};
use crate::protocol::WsMessage;
use vstd::string::{StrSliceExecFns, StringExecFns};

verus! {

/// Where an incoming message goes.
#[derive(Clone, Debug)]
pub enum Incoming {
    Chat(ChatMessage),
    Direct(DirectMessage),
    Friendship(FriendRequest),
    Ignored,
}

/// Sorts an incoming message: chat messages, direct messages and friendship
/// notices each go to their own inbox; anything else is ignored.
pub fn route_incoming(msg: WsMessage) -> (r: Incoming)
    ensures
        match msg {
            WsMessage::MessageReceived(m) => r == Incoming::Chat(m),
            WsMessage::DirectMessageReceived(d) => r == Incoming::Direct(d),
            WsMessage::FriendRequestReceived(f) => r == Incoming::Friendship(f),
            _ => r is Ignored,
        },
{
    match msg {
        WsMessage::MessageReceived(m) => Incoming::Chat(m),
        WsMessage::DirectMessageReceived(d) => Incoming::Direct(d),
        WsMessage::FriendRequestReceived(f) => Incoming::Friendship(f),
        _ => Incoming::Ignored,
    }
}

/// The message that a real-time command sends: joining a location, posting
/// to it, or writing to a friend. Other commands are not for this channel.
pub fn outgoing_message(cmd: &Command) -> (r: Option<WsMessage>)
    ensures
        match *cmd {
            Command::JoinLocation { location_id } => r == Some(WsMessage::Join { location_id }),
            Command::SendChat { location_id, content } => r == Some(
                WsMessage::Chat { location_id, content },
            ),
            Command::SendDm { receiver_id, content } => r == Some(
                WsMessage::SendDm { receiver_id, content },
            ),
            _ => r is None,
        },
{
    match cmd {
        Command::JoinLocation { location_id } => Some(WsMessage::Join { location_id: *location_id }),
        Command::SendChat { location_id, content } => Some(
            WsMessage::Chat { location_id: *location_id, content: content.clone() },
        ),
        Command::SendDm { receiver_id, content } => Some(
            WsMessage::SendDm { receiver_id: *receiver_id, content: content.clone() },
        ),
        _ => None,
    }
}

/// `s` with each occurrence of `pat` replaced by `rep`, scanning from the
/// left and not looking into a replacement again.
pub open spec fn replace_all(s: Seq<char>, pat: Seq<char>, rep: Seq<char>) -> Seq<char>
    decreases s.len(),
{
    if s.len() == 0 {
        s
    } else if 0 < pat.len() <= s.len() && s.subrange(0, pat.len() as int) == pat {
        rep + replace_all(s.subrange(pat.len() as int, s.len() as int), pat, rep)
    } else {
        seq![s[0]] + replace_all(s.drop_first(), pat, rep)
    }
}

/// Whether `pat` (of `m` characters) occurs in `s` (of `n`) at index `i`.
fn occurs_at(s: &str, n: usize, i: usize, pat: &str, m: usize) -> (b: bool)
    requires
        n == s@.len(),
        m == pat@.len(),
        i <= n,
    ensures
        b == (i + m <= n && s@.subrange(i as int, i + m) == pat@),
{
    if m > n - i {
        return false;
    }
    let mut k: usize = 0;
    while k < m
        invariant
            k <= m,
            i + m <= n,
            n == s@.len(),
            m == pat@.len(),
            forall|j: int| 0 <= j < k ==> s@[i + j] == pat@[j],
        decreases m - k,
    {
        if s.get_char(i + k) != pat.get_char(k) {
            assert(s@.subrange(i as int, i + m)[k as int] != pat@[k as int]);
            return false;
        }
        k = k + 1;
    }
    assert(s@.subrange(i as int, i + m) =~= pat@);
    true
}

/// `s` with each occurrence of `pat` replaced by `rep`, as `str::replace`
/// does.
pub fn replace_text(s: &str, pat: &str, rep: &str) -> (r: String)
    requires
        pat@.len() > 0,
    ensures
        r@ == replace_all(s@, pat@, rep@),
{
    let n = s.unicode_len();
    let m = pat.unicode_len();
    let mut out = String::new();
    let mut i: usize = 0;
    assert(s@.subrange(0, n as int) =~= s@);
    while i < n
        invariant
            n == s@.len(),
            m == pat@.len(),
            m > 0,
            i <= n,
            out@ + replace_all(s@.subrange(i as int, n as int), pat@, rep@) == replace_all(s@, pat@, rep@),
        decreases n - i,
    {
        let ghost rest = s@.subrange(i as int, n as int);
        let ghost before = out@;
        if occurs_at(s, n, i, pat, m) {
            assert(rest.subrange(0, m as int) =~= s@.subrange(i as int, i + m));
            assert(rest.subrange(m as int, rest.len() as int) =~= s@.subrange(i + m, n as int));
            out.append(rep);
            assert(before + (rep@ + replace_all(s@.subrange(i + m, n as int), pat@, rep@)) =~= out@
                + replace_all(s@.subrange(i + m, n as int), pat@, rep@));
            i = i + m;
        } else {
            assert(!(0 < pat@.len() <= rest.len() && rest.subrange(0, pat@.len() as int) == pat@)) by {
                if 0 < pat@.len() <= rest.len() {
                    assert(rest.subrange(0, m as int) =~= s@.subrange(i as int, i + m));
                }
            }
            assert(rest.drop_first() =~= s@.subrange(i + 1, n as int));
            let one = s.substring_char(i, i + 1);
            assert(one@ =~= seq![rest[0]]);
            out.append(one);
            assert(before + (seq![rest[0]] + replace_all(s@.subrange(i + 1, n as int), pat@, rep@)) =~= out@
                + replace_all(s@.subrange(i + 1, n as int), pat@, rep@));
            i = i + 1;
        }
    }
    assert(out@ + replace_all(s@.subrange(n as int, n as int), pat@, rep@) =~= out@);
    out
}

/// The address of the real-time channel of the server at `server`, for the
/// session token `token`: `http://` becomes `ws://`, `https://` becomes
/// `wss://`, and the path `/ws` with the token as query follows.
pub fn socket_url(server: &str, token: &str) -> (r: String)
    ensures
        r@ == replace_all(replace_all(server@, "http://"@, "ws://"@), "https://"@, "wss://"@) + "/ws?token="@
            + token@,
{
    proof {
        reveal_strlit("http://");
        reveal_strlit("https://");
    }
    let plain = replace_text(server, "http://", "ws://");
    let url = replace_text(plain.as_str(), "https://", "wss://");
    let url = url.concat("/ws?token=");
    url.concat(token)
}

} // verus!
