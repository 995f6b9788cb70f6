//! Sorting a user's friendships into friends, incoming and outgoing requests.

use vstd::prelude::*;
use crate::error::{AppError, STATUS_INTERNAL};
use crate::ids::uuid_parse;
use crate::models::{FriendRequest, FriendStatus};
use crate::protocol::{FriendEntry, FriendsResponse};
use crate::rows::{FriendshipRow, friendship_outcome, friendship_to_model};
use crate::text::same_text;

verus! {

/// Friends, incoming requests and outgoing requests, as sorted so far.
pub type FriendLists = (Seq<FriendEntry>, Seq<FriendRequest>, Seq<FriendRequest>);

/// The friend entry of an accepted friendship for `me`: the other party.
pub open spec fn peer_entry(r: FriendshipRow, requester: u128, addressee: u128, me: u128) -> FriendEntry {
    if requester == me {
        FriendEntry { user_id: addressee, username: r.addressee_name }
    } else {
        FriendEntry { user_id: requester, username: r.requester_name }
    }
}

/// Sorts one more friendship into `acc`: an accepted one adds its other
/// party to the friends; a pending one that `me` sent is outgoing, any other
/// pending one incoming. Reading the addressee's and requester's ids comes
/// first, reading the whole request only for a pending one.
pub open spec fn sort_step(acc: FriendLists, r: FriendshipRow, me: u128) -> Result<FriendLists, Seq<char>> {
    match uuid_parse(r.addressee_id@) {
        Err(m) => Err(m),
        Ok(a) => match uuid_parse(r.requester_id@) {
            Err(m) => Err(m),
            Ok(q) => if r.status@ == "accepted"@ {
                Ok((acc.0.push(peer_entry(r, q, a, me)), acc.1, acc.2))
            } else {
                match friendship_outcome(r) {
                    Err(m) => Err(m),
                    Ok(f) => if q == me {
                        Ok((acc.0, acc.1, acc.2.push(f)))
                    } else {
                        Ok((acc.0, acc.1.push(f), acc.2))
                    },
                }
            },
        },
    }
}

/// Sorts the friendships of `me`, in order, or gives the first failure.
pub open spec fn sort_friendships(rows: Seq<FriendshipRow>, me: u128) -> Result<FriendLists, Seq<char>>
    decreases rows.len(),
{
    if rows.len() == 0 {
        Ok((Seq::empty(), Seq::empty(), Seq::empty()))
    } else {
        match sort_friendships(rows.drop_last(), me) {
            Err(m) => Err(m),
            Ok(acc) => sort_step(acc, rows.last(), me),
        }
    }
}

proof fn lemma_sort_prefix_failure(rows: Seq<FriendshipRow>, me: u128, j: int, m: Seq<char>)
    requires
        0 <= j <= rows.len(),
        sort_friendships(rows.take(j), me) == Err::<FriendLists, Seq<char>>(m),
    ensures
        sort_friendships(rows, me) == Err::<FriendLists, Seq<char>>(m),
    decreases rows.len(),
{
    if j == rows.len() {
        assert(rows.take(j) =~= rows);
    } else {
        assert(rows.drop_last().take(j) =~= rows.take(j));
        lemma_sort_prefix_failure(rows.drop_last(), me, j, m);
    }
}

/// The answer to "who are my friends": the friendships of `user_id` sorted
/// as `sort_friendships` says, or status 500 with the first failure.
pub fn list_friends(rows: &Vec<FriendshipRow>, user_id: u128) -> (res: Result<FriendsResponse, AppError>)
    ensures
        match (res, sort_friendships(rows@, user_id)) {
            (Ok(r), Ok(l)) => r.friends@ == l.0 && r.pending_incoming@ == l.1
                && r.pending_outgoing@ == l.2,
            (Err(e), Err(m)) => e.status == STATUS_INTERNAL && e.message@ == m,
            _ => false,
        },
{
    let mut friends: Vec<FriendEntry> = Vec::new();
    let mut pending_incoming: Vec<FriendRequest> = Vec::new();
    let mut pending_outgoing: Vec<FriendRequest> = Vec::new();
    let mut i: usize = 0;
    assert(rows@.take(0) =~= Seq::<FriendshipRow>::empty());
    while i < rows.len()
        invariant
            i <= rows@.len(),
            sort_friendships(rows@.take(i as int), user_id) == Ok::<FriendLists, Seq<char>>(
                (friends@, pending_incoming@, pending_outgoing@),
            ),
        decreases rows@.len() - i,
    {
        let row = &rows[i];
        proof {
            assert(rows@.take(i + 1).drop_last() =~= rows@.take(i as int));
        }
        let addressee_id = match crate::ids::parse_id(row.addressee_id.as_str()) {
            Ok(v) => v,
            Err(m) => {
                proof {
                    lemma_sort_prefix_failure(rows@, user_id, i + 1, m@);
                }
                return Err(AppError::internal(m));
            },
        };
        let requester_id = match crate::ids::parse_id(row.requester_id.as_str()) {
            Ok(v) => v,
            Err(m) => {
                proof {
                    lemma_sort_prefix_failure(rows@, user_id, i + 1, m@);
                }
                return Err(AppError::internal(m));
            },
        };
        if same_text(&row.status, "accepted") {
            let entry = if requester_id == user_id {
                FriendEntry { user_id: addressee_id, username: row.addressee_name.clone() }
            } else {
                FriendEntry { user_id: requester_id, username: row.requester_name.clone() }
            };
            friends.push(entry);
        } else {
            match friendship_to_model(row) {
                Ok(f) => {
                    if requester_id == user_id {
                        pending_outgoing.push(f);
                    } else {
                        pending_incoming.push(f);
                    }
                },
                Err(e) => {
                    proof {
                        lemma_sort_prefix_failure(rows@, user_id, i + 1, e.message@);
                    }
                    return Err(e);
                },
            }
        }
        i = i + 1;
    }
    assert(rows@.take(i as int) =~= rows@);
    Ok(FriendsResponse { friends, pending_incoming, pending_outgoing })
}

/// Whether `e` is the other party of the accepted friendship `r` for `me`:
/// the addressee, by id and name, when `me` requested it, else the
/// requester.
pub open spec fn is_other_party(e: FriendEntry, r: FriendshipRow, me: u128) -> bool {
    &&& r.status@ == "accepted"@
    &&& uuid_parse(r.requester_id@) is Ok
    &&& uuid_parse(r.addressee_id@) is Ok
    &&& if uuid_parse(r.requester_id@)->Ok_0 == me {
        e.user_id == uuid_parse(r.addressee_id@)->Ok_0 && e.username == r.addressee_name
    } else {
        e.user_id == uuid_parse(r.requester_id@)->Ok_0 && e.username == r.requester_name
    }
}

/// Each listed friend is the other party of an accepted friendship of
/// `me`, under that party's own id and stored name.
pub proof fn lemma_friends_are_the_other_party(rows: Seq<FriendshipRow>, me: u128)
    requires
        sort_friendships(rows, me) is Ok,
    ensures
        ({
            let l = sort_friendships(rows, me)->Ok_0;
            forall|k: int| 0 <= k < l.0.len() ==> exists|j: int| 0 <= j < rows.len() && is_other_party(
                #[trigger] l.0[k],
                rows[j],
                me,
            )
        }),
    decreases rows.len(),
{
    if rows.len() > 0 {
        let prev = rows.drop_last();
        lemma_friends_are_the_other_party(prev, me);
        let p = sort_friendships(prev, me)->Ok_0;
        let l = sort_friendships(rows, me)->Ok_0;
        assert forall|k: int| 0 <= k < l.0.len() implies exists|j: int| 0 <= j < rows.len() && is_other_party(
            #[trigger] l.0[k],
            rows[j],
            me,
        ) by {
            if k < p.0.len() {
                assert(l.0[k] == p.0[k]);
                let j = choose|j: int| 0 <= j < prev.len() && is_other_party(p.0[k], prev[j], me);
                assert(prev[j] == rows[j]);
            } else {
                let n = rows.len() - 1;
                assert(rows[n] == rows.last());
                assert(is_other_party(l.0[k], rows[n], me));
            }
        }
    }
}

/// Every friendship lands in exactly one of the three lists: their lengths
/// add up to the number of friendships.
pub proof fn lemma_sorting_keeps_every_friendship(rows: Seq<FriendshipRow>, me: u128)
    requires
        sort_friendships(rows, me) is Ok,
    ensures
        ({
            let l = sort_friendships(rows, me)->Ok_0;
            l.0.len() + l.1.len() + l.2.len() == rows.len()
        }),
    decreases rows.len(),
{
    if rows.len() > 0 {
        lemma_sorting_keeps_every_friendship(rows.drop_last(), me);
    }
}

/// Requests sorted as incoming or outgoing are pending: those that `me`
/// sent are outgoing, the others incoming.
pub proof fn lemma_sorted_requests_are_pending(rows: Seq<FriendshipRow>, me: u128)
    requires
        sort_friendships(rows, me) is Ok,
    ensures
        ({
            let l = sort_friendships(rows, me)->Ok_0;
            &&& forall|k: int| 0 <= k < l.1.len() ==> l.1[k].status == FriendStatus::Pending
                && l.1[k].requester_id != me
            &&& forall|k: int| 0 <= k < l.2.len() ==> l.2[k].status == FriendStatus::Pending
                && l.2[k].requester_id == me
        }),
    decreases rows.len(),
{
    if rows.len() > 0 {
        lemma_sorted_requests_are_pending(rows.drop_last(), me);
    }
}

} // verus!
