use vstd::prelude::*;
use vstd::seq_lib::*;
use crate::message::{MsgType, ReplyData, ReplyMsg, VoteData, VoteMsg};

verus! {

/// The number of faulty replicas an ensemble of `n` replicas tolerates.
pub open spec fn spec_faulty_bound(n: u32) -> int
    recommends
        n >= 1,
{
    (n - 1) / 3
}

/// The quorum threshold 2f + 1 for an ensemble of `n` replicas.
pub open spec fn spec_quorum(n: u32) -> int
    recommends
        n >= 1,
{
    2 * spec_faulty_bound(n) + 1
}

/// True when a vote counts toward the quorum for the given view, digest
/// and kind.
pub open spec fn vote_matches(v: VoteData, view_id: u32, digest: Seq<char>, kind: MsgType) -> bool {
    v.view_id == view_id && v.digest == digest && v.msg_type == kind
}

/// The distinct node ids with a matching vote in the buffer: each voter
/// contributes at most once, however many copies of its vote arrived.
pub open spec fn vote_voters(
    buf: Seq<VoteData>,
    view_id: u32,
    digest: Seq<char>,
    kind: MsgType,
) -> Set<u32>
    decreases buf.len(),
{
    if buf.len() == 0 {
        Set::empty()
    } else {
        let rest = vote_voters(buf.drop_last(), view_id, digest, kind);
        if vote_matches(buf.last(), view_id, digest, kind) {
            rest.insert(buf.last().node_id)
        } else {
            rest
        }
    }
}

pub proof fn lemma_vote_voters_finite(buf: Seq<VoteData>, view_id: u32, digest: Seq<char>, kind: MsgType)
    ensures
        vote_voters(buf, view_id, digest, kind).finite(),
    decreases buf.len(),
{
    if buf.len() > 0 {
        lemma_vote_voters_finite(buf.drop_last(), view_id, digest, kind);
    }
}

pub proof fn lemma_vote_voters_push(
    buf: Seq<VoteData>,
    v: VoteData,
    view_id: u32,
    digest: Seq<char>,
    kind: MsgType,
)
    ensures
        vote_voters(buf.push(v), view_id, digest, kind) == if vote_matches(v, view_id, digest, kind) {
            vote_voters(buf, view_id, digest, kind).insert(v.node_id)
        } else {
            vote_voters(buf, view_id, digest, kind)
        },
{
    assert(buf.push(v).drop_last() =~= buf);
    assert(buf.push(v).last() == v);
}

/// Appending a vote never removes anyone from a voter set, so a quorum
/// once reached is never lost.
pub proof fn lemma_vote_voters_grow(
    buf: Seq<VoteData>,
    v: VoteData,
    view_id: u32,
    digest: Seq<char>,
    kind: MsgType,
)
    ensures
        vote_voters(buf, view_id, digest, kind).subset_of(
            vote_voters(buf.push(v), view_id, digest, kind),
        ),
        vote_voters(buf.push(v), view_id, digest, kind).len() >= vote_voters(
            buf,
            view_id,
            digest,
            kind,
        ).len(),
{
    lemma_vote_voters_push(buf, v, view_id, digest, kind);
    lemma_vote_voters_finite(buf, view_id, digest, kind);
    let s = vote_voters(buf, view_id, digest, kind);
    if vote_matches(v, view_id, digest, kind) {
        if s.contains(v.node_id) {
            assert(s.insert(v.node_id) =~= s);
        }
    }
}

/// True when a reply counts toward the client's quorum for the reply `r`:
/// it agrees on timestamp, view and result.
pub open spec fn reply_matches(a: ReplyData, time_stamp: u64, view_id: u32, result: Seq<char>) -> bool {
    a.time_stamp == time_stamp && a.view_id == view_id && a.result == result
}

/// The distinct node ids among the buffered replies that agree on the
/// given (timestamp, view, result).
pub open spec fn reply_voters(
    buf: Seq<ReplyData>,
    time_stamp: u64,
    view_id: u32,
    result: Seq<char>,
) -> Set<u32>
    decreases buf.len(),
{
    if buf.len() == 0 {
        Set::empty()
    } else {
        let rest = reply_voters(buf.drop_last(), time_stamp, view_id, result);
        if reply_matches(buf.last(), time_stamp, view_id, result) {
            rest.insert(buf.last().node_id)
        } else {
            rest
        }
    }
}

pub proof fn lemma_reply_voters_finite(buf: Seq<ReplyData>, time_stamp: u64, view_id: u32, result: Seq<char>)
    ensures
        reply_voters(buf, time_stamp, view_id, result).finite(),
    decreases buf.len(),
{
    if buf.len() > 0 {
        lemma_reply_voters_finite(buf.drop_last(), time_stamp, view_id, result);
    }
}

pub proof fn lemma_reply_voters_push(
    buf: Seq<ReplyData>,
    r: ReplyData,
    time_stamp: u64,
    view_id: u32,
    result: Seq<char>,
)
    ensures
        reply_voters(buf.push(r), time_stamp, view_id, result) == if reply_matches(
            r,
            time_stamp,
            view_id,
            result,
        ) {
            reply_voters(buf, time_stamp, view_id, result).insert(r.node_id)
        } else {
            reply_voters(buf, time_stamp, view_id, result)
        },
{
    assert(buf.push(r).drop_last() =~= buf);
    assert(buf.push(r).last() == r);
}

/// Does a vector of node ids contain the given id?
fn contains_id(seen: &Vec<u32>, id: u32) -> (r: bool)
    ensures
        r == seen@.contains(id),
{
    let mut i: usize = 0;
    while i < seen.len()
        invariant
            i <= seen@.len(),
            forall|j: int| 0 <= j < i ==> seen@[j] != id,
        decreases seen@.len() - i,
    {
        if seen[i] == id {
            return true;
        }
        i = i + 1;
    }
    false
}

/// Count the distinct node ids with a vote in the buffer matching the
/// given (view, digest, kind): duplicate votes from one node count once.
pub fn count_vote_voters(buf: &Vec<VoteMsg>, view_id: u32, digest: &String, kind: MsgType) -> (c:
    usize)
    ensures
        c == vote_voters(buf.deep_view(), view_id, digest@, kind).len(),
{
    let mut seen: Vec<u32> = Vec::new();
    let mut i: usize = 0;
    while i < buf.len()
        invariant
            i <= buf@.len(),
            seen@.no_duplicates(),
            seen@.to_set() == vote_voters(buf.deep_view().take(i as int), view_id, digest@, kind),
        decreases buf@.len() - i,
    {
        let ghost prefix = buf.deep_view().take(i as int);
        let ghost elem = buf.deep_view()[i as int];
        let v = &buf[i];
        proof {
            assert(elem == buf@[i as int]@);
            assert(buf.deep_view().take(i + 1) =~= prefix.push(elem));
            lemma_vote_voters_push(prefix, elem, view_id, digest@, kind);
        }
        if v.view_id == view_id && v.digest == *digest && v.msg_type == kind {
            assert(vote_matches(elem, view_id, digest@, kind));
            if !contains_id(&seen, v.node_id) {
                let ghost pre_seen = seen@;
                seen.push(v.node_id);
                proof {
                    pre_seen.lemma_push_to_set_commute(elem.node_id);
                    assert(seen@.no_duplicates());
                }
            } else {
                proof {
                    assert(seen@.to_set().insert(elem.node_id) =~= seen@.to_set());
                }
            }
        } else {
            assert(!vote_matches(elem, view_id, digest@, kind));
        }
        i = i + 1;
    }
    proof {
        assert(buf.deep_view().take(buf@.len() as int) =~= buf.deep_view());
        seen@.unique_seq_to_set();
    }
    seen.len()
}

/// Count the distinct node ids among the buffered replies that agree on
/// the given (timestamp, view, result).
pub fn count_reply_voters(buf: &Vec<ReplyMsg>, time_stamp: u64, view_id: u32, result: &String) -> (c:
    usize)
    ensures
        c == reply_voters(buf.deep_view(), time_stamp, view_id, result@).len(),
{
    let mut seen: Vec<u32> = Vec::new();
    let mut i: usize = 0;
    while i < buf.len()
        invariant
            i <= buf@.len(),
            seen@.no_duplicates(),
            seen@.to_set() == reply_voters(buf.deep_view().take(i as int), time_stamp, view_id, result@),
        decreases buf@.len() - i,
    {
        let ghost prefix = buf.deep_view().take(i as int);
        let ghost elem = buf.deep_view()[i as int];
        let r = &buf[i];
        proof {
            assert(elem == buf@[i as int]@);
            assert(buf.deep_view().take(i + 1) =~= prefix.push(elem));
            lemma_reply_voters_push(prefix, elem, time_stamp, view_id, result@);
        }
        if r.time_stamp == time_stamp && r.view_id == view_id && r.result == *result {
            assert(reply_matches(elem, time_stamp, view_id, result@));
            if !contains_id(&seen, r.node_id) {
                let ghost pre_seen = seen@;
                seen.push(r.node_id);
                proof {
                    pre_seen.lemma_push_to_set_commute(elem.node_id);
                    assert(seen@.no_duplicates());
                }
            } else {
                proof {
                    assert(seen@.to_set().insert(elem.node_id) =~= seen@.to_set());
                }
            }
        } else {
            assert(!reply_matches(elem, time_stamp, view_id, result@));
        }
        i = i + 1;
    }
    proof {
        assert(buf.deep_view().take(buf@.len() as int) =~= buf.deep_view());
        seen@.unique_seq_to_set();
    }
    seen.len()
}

} // verus!
