//! The records as the database stores them (identifiers and times as text),
//! and their reading into domain records.

use vstd::prelude::*;
use crate::error::{AppError, is_outcome};
use crate::ids::{parse_id, uuid_parse};
use crate::models::{CharacterMode, ChatMessage, DirectMessage, FriendRequest, FriendStatus, Location, World, mode_of_text, status_of_text};
use crate::time::{Timestamp, parse_timestamp, utc_parse};

verus! {

/// A stored account.
#[derive(Clone, Debug)]
pub struct UserRow {
    pub id: String,
    pub username: String,
    pub password_hash: String,
    pub created_at: String,
}

/// A stored world.
#[derive(Clone, Debug)]
pub struct WorldRow {
    pub id: String,
    pub name: String,
    pub description: String,
    pub owner_id: String,
    pub theme_id: String,
    pub character_mode: String,
    pub invite_code: Option<String>,
    pub created_at: String,
}

/// A stored location.
#[derive(Clone, Debug)]
pub struct LocationRow {
    pub id: String,
    pub world_id: String,
    pub name: String,
}

/// A stored location message, with its sender's name.
#[derive(Clone, Debug)]
pub struct MessageRow {
    pub id: String,
    pub world_id: String,
    pub location_id: String,
    pub sender_id: String,
    pub sender_name: String,
    pub content: String,
    pub timestamp: String,
}

/// A stored friendship, with the names of both parties.
#[derive(Clone, Debug)]
pub struct FriendshipRow {
    pub id: String,
    pub requester_id: String,
    pub requester_name: String,
    pub addressee_id: String,
    pub addressee_name: String,
    pub status: String,
    pub created_at: String,
}

/// A stored direct message, with its sender's name.
#[derive(Clone, Debug)]
pub struct DmRow {
    pub id: String,
    pub sender_id: String,
    pub sender_name: String,
    pub receiver_id: String,
    pub content: String,
    pub timestamp: String,
}

/// The time that `utc_parse` gives, as a `Timestamp`.
pub open spec fn time_of(p: (i64, u32)) -> Timestamp {
    Timestamp { secs: p.0, nanos: p.1 }
}

/// The world that a stored world reads as, or the first failure in reading
/// its id, its owner's id and its creation time, in that order.
pub open spec fn world_outcome(r: WorldRow) -> Result<World, Seq<char>> {
    match uuid_parse(r.id@) {
        Err(m) => Err(m),
        Ok(id) => match uuid_parse(r.owner_id@) {
            Err(m) => Err(m),
            Ok(owner) => match utc_parse(r.created_at@) {
                Err(m) => Err(m),
                Ok(t) => Ok(
                    World {
                        id,
                        name: r.name,
                        description: r.description,
                        owner_id: owner,
                        theme_id: r.theme_id,
                        character_mode: mode_of_text(r.character_mode@),
                        invite_code: r.invite_code,
                        created_at: time_of(t),
                    },
                ),
            },
        },
    }
}

/// The location that a stored location reads as, or the first failure in
/// reading its id and its world's id.
pub open spec fn location_outcome(r: LocationRow) -> Result<Location, Seq<char>> {
    match uuid_parse(r.id@) {
        Err(m) => Err(m),
        Ok(id) => match uuid_parse(r.world_id@) {
            Err(m) => Err(m),
            Ok(w) => Ok(Location { id, world_id: w, name: r.name }),
        },
    }
}

/// The message that a stored message reads as, or the first failure in
/// reading its id, world, location, sender and time, in that order.
pub open spec fn message_outcome(r: MessageRow) -> Result<ChatMessage, Seq<char>> {
    match uuid_parse(r.id@) {
        Err(m) => Err(m),
        Ok(id) => match uuid_parse(r.world_id@) {
            Err(m) => Err(m),
            Ok(w) => match uuid_parse(r.location_id@) {
                Err(m) => Err(m),
                Ok(l) => match uuid_parse(r.sender_id@) {
                    Err(m) => Err(m),
                    Ok(s) => match utc_parse(r.timestamp@) {
                        Err(m) => Err(m),
                        Ok(t) => Ok(
                            ChatMessage {
                                id,
                                world_id: w,
                                location_id: l,
                                sender_id: s,
                                sender_name: r.sender_name,
                                content: r.content,
                                timestamp: time_of(t),
                            },
                        ),
                    },
                },
            },
        },
    }
}

/// The direct message that a stored one reads as, or the first failure in
/// reading its id, sender, receiver and time, in that order.
pub open spec fn dm_outcome(r: DmRow) -> Result<DirectMessage, Seq<char>> {
    match uuid_parse(r.id@) {
        Err(m) => Err(m),
        Ok(id) => match uuid_parse(r.sender_id@) {
            Err(m) => Err(m),
            Ok(s) => match uuid_parse(r.receiver_id@) {
                Err(m) => Err(m),
                Ok(rc) => match utc_parse(r.timestamp@) {
                    Err(m) => Err(m),
                    Ok(t) => Ok(
                        DirectMessage {
                            id,
                            sender_id: s,
                            sender_name: r.sender_name,
                            receiver_id: rc,
                            content: r.content,
                            timestamp: time_of(t),
                        },
                    ),
                },
            },
        },
    }
}

/// The friendship that a stored one reads as, or the first failure in
/// reading its id, requester, addressee and creation time, in that order.
pub open spec fn friendship_outcome(r: FriendshipRow) -> Result<FriendRequest, Seq<char>> {
    match uuid_parse(r.id@) {
        Err(m) => Err(m),
        Ok(id) => match uuid_parse(r.requester_id@) {
            Err(m) => Err(m),
            Ok(q) => match uuid_parse(r.addressee_id@) {
                Err(m) => Err(m),
                Ok(a) => match utc_parse(r.created_at@) {
                    Err(m) => Err(m),
                    Ok(t) => Ok(
                        FriendRequest {
                            id,
                            requester_id: q,
                            requester_name: r.requester_name,
                            addressee_id: a,
                            addressee_name: r.addressee_name,
                            status: status_of_text(r.status@),
                            created_at: time_of(t),
                        },
                    ),
                },
            },
        },
    }
}

/// A stored world reads back exactly when its id, its owner's id and its
/// creation time read; then every text column is the field of the same
/// name, the ids and the time are what they read as, and the mode is
/// `Local` exactly for the text "Local".
pub proof fn lemma_world_reads_back(r: WorldRow)
    ensures
        world_outcome(r) is Ok <==> (uuid_parse(r.id@) is Ok && uuid_parse(r.owner_id@) is Ok && utc_parse(
            r.created_at@,
        ) is Ok),
        world_outcome(r) matches Ok(w) ==> {
            &&& w.id == uuid_parse(r.id@)->Ok_0
            &&& w.owner_id == uuid_parse(r.owner_id@)->Ok_0
            &&& w.name == r.name
            &&& w.description == r.description
            &&& w.theme_id == r.theme_id
            &&& w.invite_code == r.invite_code
            &&& (w.character_mode == CharacterMode::Local <==> r.character_mode@ == "Local"@)
            &&& w.created_at.secs == utc_parse(r.created_at@)->Ok_0.0
            &&& w.created_at.nanos == utc_parse(r.created_at@)->Ok_0.1
        },
{
}

/// A stored location reads back exactly when both its ids read; then it
/// has those ids and the stored name.
pub proof fn lemma_location_reads_back(r: LocationRow)
    ensures
        location_outcome(r) is Ok <==> (uuid_parse(r.id@) is Ok && uuid_parse(r.world_id@) is Ok),
        location_outcome(r) matches Ok(l) ==> {
            &&& l.id == uuid_parse(r.id@)->Ok_0
            &&& l.world_id == uuid_parse(r.world_id@)->Ok_0
            &&& l.name == r.name
        },
{
}

/// A stored message reads back exactly when its ids and its time read; then
/// it carries those ids and that time, and the stored sender name and
/// content unchanged.
pub proof fn lemma_message_reads_back(r: MessageRow)
    ensures
        message_outcome(r) is Ok <==> (uuid_parse(r.id@) is Ok && uuid_parse(r.world_id@) is Ok && uuid_parse(
            r.location_id@,
        ) is Ok && uuid_parse(r.sender_id@) is Ok && utc_parse(r.timestamp@) is Ok),
        message_outcome(r) matches Ok(m) ==> {
            &&& m.id == uuid_parse(r.id@)->Ok_0
            &&& m.world_id == uuid_parse(r.world_id@)->Ok_0
            &&& m.location_id == uuid_parse(r.location_id@)->Ok_0
            &&& m.sender_id == uuid_parse(r.sender_id@)->Ok_0
            &&& m.sender_name == r.sender_name
            &&& m.content == r.content
            &&& m.timestamp.secs == utc_parse(r.timestamp@)->Ok_0.0
            &&& m.timestamp.nanos == utc_parse(r.timestamp@)->Ok_0.1
        },
{
}

/// A stored direct message reads back exactly when its ids and its time
/// read; then it carries those ids and that time, and the stored sender
/// name and content unchanged.
pub proof fn lemma_dm_reads_back(r: DmRow)
    ensures
        dm_outcome(r) is Ok <==> (uuid_parse(r.id@) is Ok && uuid_parse(r.sender_id@) is Ok && uuid_parse(
            r.receiver_id@,
        ) is Ok && utc_parse(r.timestamp@) is Ok),
        dm_outcome(r) matches Ok(d) ==> {
            &&& d.id == uuid_parse(r.id@)->Ok_0
            &&& d.sender_id == uuid_parse(r.sender_id@)->Ok_0
            &&& d.receiver_id == uuid_parse(r.receiver_id@)->Ok_0
            &&& d.sender_name == r.sender_name
            &&& d.content == r.content
            &&& d.timestamp.secs == utc_parse(r.timestamp@)->Ok_0.0
            &&& d.timestamp.nanos == utc_parse(r.timestamp@)->Ok_0.1
        },
{
}

/// A stored friendship reads back exactly when its ids and its time read;
/// then it carries those ids and that time, each party's stored name, and
/// the status `Accepted` exactly for the text "accepted".
pub proof fn lemma_friendship_reads_back(r: FriendshipRow)
    ensures
        friendship_outcome(r) is Ok <==> (uuid_parse(r.id@) is Ok && uuid_parse(r.requester_id@) is Ok
            && uuid_parse(r.addressee_id@) is Ok && utc_parse(r.created_at@) is Ok),
        friendship_outcome(r) matches Ok(f) ==> {
            &&& f.id == uuid_parse(r.id@)->Ok_0
            &&& f.requester_id == uuid_parse(r.requester_id@)->Ok_0
            &&& f.addressee_id == uuid_parse(r.addressee_id@)->Ok_0
            &&& f.requester_name == r.requester_name
            &&& f.addressee_name == r.addressee_name
            &&& (f.status == FriendStatus::Accepted <==> r.status@ == "accepted"@)
            &&& f.created_at.secs == utc_parse(r.created_at@)->Ok_0.0
            &&& f.created_at.nanos == utc_parse(r.created_at@)->Ok_0.1
        },
{
}

/// Reads every element of `s` with `f`, in order: all the results, or the
/// first failure.
pub open spec fn read_all<A, B>(s: Seq<A>, f: spec_fn(A) -> Result<B, Seq<char>>) -> Result<
    Seq<B>,
    Seq<char>,
>
    decreases s.len(),
{
    if s.len() == 0 {
        Ok(Seq::empty())
    } else {
        match read_all(s.drop_last(), f) {
            Err(m) => Err(m),
            Ok(p) => match f(s.last()) {
                Err(m) => Err(m),
                Ok(b) => Ok(p.push(b)),
            },
        }
    }
}

/// `read_all`, then reversed: the stores list messages newest first, and
/// the handlers answer oldest first.
pub open spec fn read_all_reversed<A, B>(
    s: Seq<A>,
    f: spec_fn(A) -> Result<B, Seq<char>>,
) -> Result<Seq<B>, Seq<char>> {
    match read_all(s, f) {
        Err(m) => Err(m),
        Ok(v) => Ok(v.reverse()),
    }
}

fn id_or_fail(text: &String) -> (r: Result<u128, AppError>)
    ensures
        is_outcome(r, uuid_parse(text@)),
{
    match parse_id(text.as_str()) {
        Ok(v) => Ok(v),
        Err(m) => Err(AppError::internal(m)),
    }
}

fn time_or_fail(text: &String) -> (r: Result<Timestamp, AppError>)
    ensures
        match (r, utc_parse(text@)) {
            (Ok(t), Ok(p)) => t == time_of(p),
            (Err(e), Err(m)) => e.status == crate::error::STATUS_INTERNAL && e.message@ == m,
            _ => false,
        },
{
    match parse_timestamp(text.as_str()) {
        Ok(t) => Ok(t),
        Err(m) => Err(AppError::internal(m)),
    }
}

/// Reads a stored world.
pub fn world_from_row(r: &WorldRow) -> (res: Result<World, AppError>)
    ensures
        is_outcome(res, world_outcome(*r)),
        res matches Ok(w) ==> w.name == r.name && w.description == r.description && w.theme_id == r.theme_id
            && w.invite_code == r.invite_code,
{
    let mode = CharacterMode::from_text(r.character_mode.as_str());
    let id = id_or_fail(&r.id)?;
    let owner_id = id_or_fail(&r.owner_id)?;
    let created_at = time_or_fail(&r.created_at)?;
    Ok(
        World {
            id,
            name: r.name.clone(),
            description: r.description.clone(),
            owner_id,
            theme_id: r.theme_id.clone(),
            character_mode: mode,
            invite_code: r.invite_code.clone(),
            created_at,
        },
    )
}

/// Reads a stored location.
pub fn location_from_row(r: &LocationRow) -> (res: Result<Location, AppError>)
    ensures
        is_outcome(res, location_outcome(*r)),
        res matches Ok(l) ==> l.name == r.name,
{
    let id = id_or_fail(&r.id)?;
    let world_id = id_or_fail(&r.world_id)?;
    Ok(Location { id, world_id, name: r.name.clone() })
}

/// Reads a stored location message.
pub fn message_from_row(r: &MessageRow) -> (res: Result<ChatMessage, AppError>)
    ensures
        is_outcome(res, message_outcome(*r)),
        res matches Ok(m) ==> m.sender_name == r.sender_name && m.content == r.content,
{
    let id = id_or_fail(&r.id)?;
    let world_id = id_or_fail(&r.world_id)?;
    let location_id = id_or_fail(&r.location_id)?;
    let sender_id = id_or_fail(&r.sender_id)?;
    let timestamp = time_or_fail(&r.timestamp)?;
    Ok(
        ChatMessage {
            id,
            world_id,
            location_id,
            sender_id,
            sender_name: r.sender_name.clone(),
            content: r.content.clone(),
            timestamp,
        },
    )
}

/// Reads a stored direct message.
pub fn dm_from_row(r: &DmRow) -> (res: Result<DirectMessage, AppError>)
    ensures
        is_outcome(res, dm_outcome(*r)),
        res matches Ok(d) ==> d.sender_name == r.sender_name && d.content == r.content,
{
    let id = id_or_fail(&r.id)?;
    let sender_id = id_or_fail(&r.sender_id)?;
    let receiver_id = id_or_fail(&r.receiver_id)?;
    let timestamp = time_or_fail(&r.timestamp)?;
    Ok(
        DirectMessage {
            id,
            sender_id,
            sender_name: r.sender_name.clone(),
            receiver_id,
            content: r.content.clone(),
            timestamp,
        },
    )
}

/// Reads a stored friendship.
pub fn friendship_to_model(r: &FriendshipRow) -> (res: Result<FriendRequest, AppError>)
    ensures
        is_outcome(res, friendship_outcome(*r)),
        res matches Ok(f) ==> f.requester_name == r.requester_name && f.addressee_name == r.addressee_name,
{
    let status = FriendStatus::from_text(r.status.as_str());
    let id = id_or_fail(&r.id)?;
    let requester_id = id_or_fail(&r.requester_id)?;
    let addressee_id = id_or_fail(&r.addressee_id)?;
    let created_at = time_or_fail(&r.created_at)?;
    Ok(
        FriendRequest {
            id,
            requester_id,
            requester_name: r.requester_name.clone(),
            addressee_id,
            addressee_name: r.addressee_name.clone(),
            status,
            created_at,
        },
    )
}


/// `r` is the list outcome `o`: the same elements, or status 500 with the
/// failure's text.
pub open spec fn is_list_outcome<T>(r: Result<Vec<T>, AppError>, o: Result<Seq<T>, Seq<char>>) -> bool {
    match (r, o) {
        (Ok(v), Ok(w)) => v@ == w,
        (Err(e), Err(m)) => e.status == crate::error::STATUS_INTERNAL && e.message@ == m,
        _ => false,
    }
}

/// A failure in reading a prefix is the failure in reading the whole.
pub proof fn lemma_read_all_prefix_failure<A, B>(
    s: Seq<A>,
    f: spec_fn(A) -> Result<B, Seq<char>>,
    j: int,
    m: Seq<char>,
)
    requires
        0 <= j <= s.len(),
        read_all(s.take(j), f) == Err::<Seq<B>, Seq<char>>(m),
    ensures
        read_all(s, f) == Err::<Seq<B>, Seq<char>>(m),
    decreases s.len(),
{
    if j == s.len() {
        assert(s.take(j) =~= s);
    } else {
        assert(s.drop_last().take(j) =~= s.take(j));
        lemma_read_all_prefix_failure(s.drop_last(), f, j, m);
    }
}

/// One more element read: the prefix outcome extended by that element's.
proof fn lemma_read_all_step<A, B>(s: Seq<A>, f: spec_fn(A) -> Result<B, Seq<char>>, i: int)
    requires
        0 <= i < s.len(),
    ensures
        read_all(s.take(i + 1), f) == (match read_all(s.take(i), f) {
            Err(m) => Err(m),
            Ok(p) => match f(s[i]) {
                Err(m) => Err(m),
                Ok(b) => Ok(p.push(b)),
            },
        }),
{
    assert(s.take(i + 1).drop_last() =~= s.take(i));
}

/// Reads stored worlds, in order.
pub fn worlds_from_rows(rows: &Vec<WorldRow>) -> (res: Result<Vec<World>, AppError>)
    ensures
        is_list_outcome(res, read_all(rows@, |r: WorldRow| world_outcome(r))),
{
    let mut out: Vec<World> = Vec::new();
    let mut i: usize = 0;
    assert(rows@.take(0) =~= Seq::<WorldRow>::empty());
    while i < rows.len()
        invariant
            i <= rows@.len(),
            read_all(rows@.take(i as int), |r: WorldRow| world_outcome(r)) == Ok::<Seq<World>, Seq<char>>(out@),
        decreases rows@.len() - i,
    {
        proof {
            lemma_read_all_step(rows@, |r: WorldRow| world_outcome(r), i as int);
        }
        let res = world_from_row(&rows[i]);
        match res {
            Ok(w) => out.push(w),
            Err(e) => {
                proof {
                    lemma_read_all_prefix_failure(rows@, |r: WorldRow| world_outcome(r), i + 1, e.message@);
                }
                return Err(e);
            },
        }
        i = i + 1;
    }
    assert(rows@.take(i as int) =~= rows@);
    Ok(out)
}

/// Reads stored locations, in order.
pub fn locations_from_rows(rows: &Vec<LocationRow>) -> (res: Result<Vec<Location>, AppError>)
    ensures
        is_list_outcome(res, read_all(rows@, |r: LocationRow| location_outcome(r))),
{
    let mut out: Vec<Location> = Vec::new();
    let mut i: usize = 0;
    assert(rows@.take(0) =~= Seq::<LocationRow>::empty());
    while i < rows.len()
        invariant
            i <= rows@.len(),
            read_all(rows@.take(i as int), |r: LocationRow| location_outcome(r)) == Ok::<Seq<Location>, Seq<char>>(out@),
        decreases rows@.len() - i,
    {
        proof {
            lemma_read_all_step(rows@, |r: LocationRow| location_outcome(r), i as int);
        }
        let res = location_from_row(&rows[i]);
        match res {
            Ok(w) => out.push(w),
            Err(e) => {
                proof {
                    lemma_read_all_prefix_failure(rows@, |r: LocationRow| location_outcome(r), i + 1, e.message@);
                }
                return Err(e);
            },
        }
        i = i + 1;
    }
    assert(rows@.take(i as int) =~= rows@);
    Ok(out)
}

/// The elements of `v` in reverse order.
pub fn reversed<T>(v: Vec<T>) -> (r: Vec<T>)
    ensures
        r@ == v@.reverse(),
{
    let ghost orig = v@;
    let mut src = v;
    let mut out: Vec<T> = Vec::new();
    while src.len() > 0
        invariant
            out@.len() + src@.len() == orig.len(),
            src@ == orig.subrange(0, src@.len() as int),
            forall|k: int| 0 <= k < out@.len() ==> out@[k] == orig[orig.len() - 1 - k],
        decreases src@.len(),
    {
        let ghost before = src@;
        match src.pop() {
            Some(x) => {
                out.push(x);
            },
            None => {},
        }
        assert(src@ =~= orig.subrange(0, src@.len() as int));
    }
    assert(out@ =~= orig.reverse());
    out
}

/// Reads stored location messages, listed newest first, and answers them
/// oldest first.
pub fn messages_from_rows(rows: &Vec<MessageRow>) -> (res: Result<Vec<ChatMessage>, AppError>)
    ensures
        is_list_outcome(res, read_all_reversed(rows@, |r: MessageRow| message_outcome(r))),
{
    let mut out: Vec<ChatMessage> = Vec::new();
    let mut i: usize = 0;
    assert(rows@.take(0) =~= Seq::<MessageRow>::empty());
    while i < rows.len()
        invariant
            i <= rows@.len(),
            read_all(rows@.take(i as int), |r: MessageRow| message_outcome(r)) == Ok::<Seq<ChatMessage>, Seq<char>>(out@),
        decreases rows@.len() - i,
    {
        proof {
            lemma_read_all_step(rows@, |r: MessageRow| message_outcome(r), i as int);
        }
        let res = message_from_row(&rows[i]);
        match res {
            Ok(w) => out.push(w),
            Err(e) => {
                proof {
                    lemma_read_all_prefix_failure(rows@, |r: MessageRow| message_outcome(r), i + 1, e.message@);
                }
                return Err(e);
            },
        }
        i = i + 1;
    }
    assert(rows@.take(i as int) =~= rows@);
    Ok(reversed(out))
}

/// Reads stored direct messages, listed newest first, and answers them
/// oldest first.
pub fn dms_from_rows(rows: &Vec<DmRow>) -> (res: Result<Vec<DirectMessage>, AppError>)
    ensures
        is_list_outcome(res, read_all_reversed(rows@, |r: DmRow| dm_outcome(r))),
{
    let mut out: Vec<DirectMessage> = Vec::new();
    let mut i: usize = 0;
    assert(rows@.take(0) =~= Seq::<DmRow>::empty());
    while i < rows.len()
        invariant
            i <= rows@.len(),
            read_all(rows@.take(i as int), |r: DmRow| dm_outcome(r)) == Ok::<Seq<DirectMessage>, Seq<char>>(out@),
        decreases rows@.len() - i,
    {
        proof {
            lemma_read_all_step(rows@, |r: DmRow| dm_outcome(r), i as int);
        }
        let res = dm_from_row(&rows[i]);
        match res {
            Ok(w) => out.push(w),
            Err(e) => {
                proof {
                    lemma_read_all_prefix_failure(rows@, |r: DmRow| dm_outcome(r), i + 1, e.message@);
                }
                return Err(e);
            },
        }
        i = i + 1;
    }
    assert(rows@.take(i as int) =~= rows@);
    Ok(reversed(out))
}

} // verus!
