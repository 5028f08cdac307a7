use vstd::prelude::*;
use crate::digest::digest_of;
use crate::message::{MsgType, PrePrepareData, RequestData, VoteData};
use crate::quorum::{lemma_vote_voters_finite, lemma_vote_voters_grow, lemma_vote_voters_push,
    spec_quorum, vote_voters};
use crate::replica::{find_request, has_preprepare, lemma_find_request_some, spec_handle_commit,
    spec_handle_pre_prepare, spec_handle_prepare, spec_handle_request, stage_le, ReplicaData};

verus! {

/// Phase monotonicity: no sink ever moves the stage backward, so within
/// one agreement round the stage visits Idle, PrePrepare, Prepare and
/// Commit in that order and never regresses.
pub proof fn lemma_stage_monotone(
    s: ReplicaData,
    m: RequestData,
    p: PrePrepareData,
    v: VoteData,
    c: VoteData,
)
    ensures
        stage_le(s.current_stage, spec_handle_request(s, m).0.current_stage),
        stage_le(s.current_stage, spec_handle_pre_prepare(s, p).0.current_stage),
        stage_le(s.current_stage, spec_handle_prepare(s, v).0.current_stage),
        spec_handle_commit(s, c).0.current_stage == s.current_stage,
{
}

/// Quorum monotonicity, prepare side: the Prepare→Commit transition fires
/// at most once per round. A prepare vote that triggers it leaves the
/// replica in the Commit stage, and from there no further prepare vote
/// transitions again or emits a second commit vote.
pub proof fn lemma_commit_transition_at_most_once(s: ReplicaData, v1: VoteData, v2: VoteData)
    requires
        spec_handle_prepare(s, v1).1 is Some,
    ensures
        spec_handle_prepare(s, v1).0.current_stage is Commit,
        spec_handle_prepare(spec_handle_prepare(s, v1).0, v2).1 is None,
{
}

/// Once a replica stands in the Commit stage, the prepare sink still
/// records votes but never transitions or emits a commit vote.
pub proof fn lemma_no_commit_vote_in_commit_stage(s: ReplicaData, v: VoteData)
    requires
        s.current_stage is Commit,
    ensures
        spec_handle_prepare(s, v).1 is None,
        spec_handle_prepare(s, v).0.current_stage is Commit,
{
}

/// A reply is emitted only when the arriving commit vote first completes
/// the distinct quorum: exactly 2f+1 distinct voters stand afterwards,
/// one fewer before.
pub proof fn lemma_reply_completes_quorum(s: ReplicaData, c: VoteData)
    requires
        spec_handle_commit(s, c).1 is Some,
    ensures
        vote_voters(
            spec_handle_commit(s, c).0.commit_msgs,
            c.view_id,
            c.digest,
            MsgType::CommitMsg,
        ).len() == spec_quorum(s.n),
        vote_voters(s.commit_msgs, c.view_id, c.digest, MsgType::CommitMsg).len() == spec_quorum(
            s.n,
        ) - 1,
{
    lemma_vote_voters_push(s.commit_msgs, c, c.view_id, c.digest, MsgType::CommitMsg);
    lemma_vote_voters_finite(s.commit_msgs, c.view_id, c.digest, MsgType::CommitMsg);
}

/// Once the distinct commit quorum for a (view, digest) stands in the
/// buffer, no further commit vote for it emits a reply.
pub proof fn lemma_no_reply_after_quorum(s: ReplicaData, c: VoteData)
    requires
        vote_voters(s.commit_msgs, c.view_id, c.digest, MsgType::CommitMsg).len() >= spec_quorum(
            s.n,
        ),
    ensures
        spec_handle_commit(s, c).1 is None,
{
    lemma_vote_voters_push(s.commit_msgs, c, c.view_id, c.digest, MsgType::CommitMsg);
    lemma_vote_voters_finite(s.commit_msgs, c.view_id, c.digest, MsgType::CommitMsg);
}

/// Quorum monotonicity, reply side: a replica sends at most one reply per
/// (view, digest). A commit vote that emits a reply completes the quorum,
/// and a later commit vote for the same (view, digest) emits none.
pub proof fn lemma_reply_at_most_once(s: ReplicaData, c1: VoteData, c2: VoteData)
    requires
        spec_handle_commit(s, c1).1 is Some,
        c2.view_id == c1.view_id,
        c2.digest == c1.digest,
    ensures
        spec_handle_commit(spec_handle_commit(s, c1).0, c2).1 is None,
{
    let s1 = spec_handle_commit(s, c1).0;
    lemma_reply_completes_quorum(s, c1);
    lemma_no_reply_after_quorum(s1, c2);
}

/// The distinct commit-vote quorum for any (view, digest) never shrinks:
/// every sink either leaves the commit buffer alone or appends to it.
pub proof fn lemma_commit_quorum_monotone(
    s: ReplicaData,
    m: RequestData,
    p: PrePrepareData,
    v: VoteData,
    c: VoteData,
    view_id: u32,
    d: Seq<char>,
)
    ensures
        vote_voters(spec_handle_request(s, m).0.commit_msgs, view_id, d, MsgType::CommitMsg).len()
            >= vote_voters(s.commit_msgs, view_id, d, MsgType::CommitMsg).len(),
        vote_voters(
            spec_handle_pre_prepare(s, p).0.commit_msgs,
            view_id,
            d,
            MsgType::CommitMsg,
        ).len() >= vote_voters(s.commit_msgs, view_id, d, MsgType::CommitMsg).len(),
        vote_voters(spec_handle_prepare(s, v).0.commit_msgs, view_id, d, MsgType::CommitMsg).len()
            >= vote_voters(s.commit_msgs, view_id, d, MsgType::CommitMsg).len(),
        vote_voters(spec_handle_commit(s, c).0.commit_msgs, view_id, d, MsgType::CommitMsg).len()
            >= vote_voters(s.commit_msgs, view_id, d, MsgType::CommitMsg).len(),
{
    let own = VoteData {
        view_id: v.view_id,
        sequence_id: v.sequence_id,
        digest: v.digest,
        node_id: s.id,
        msg_type: MsgType::CommitMsg,
    };
    lemma_vote_voters_grow(s.commit_msgs, own, view_id, d, MsgType::CommitMsg);
    lemma_vote_voters_grow(s.commit_msgs, c, view_id, d, MsgType::CommitMsg);
}

/// Honest quorum gate: the only door into the Commit stage is a completed
/// distinct prepare quorum. A replica outside the Commit stage enters it
/// only through the prepare sink, and only when 2f+1 distinct matching
/// prepare votes stand recorded.
pub proof fn lemma_commit_stage_needs_prepare_quorum(
    s: ReplicaData,
    m: RequestData,
    p: PrePrepareData,
    v: VoteData,
    c: VoteData,
)
    requires
        !(s.current_stage is Commit),
    ensures
        !(spec_handle_request(s, m).0.current_stage is Commit),
        !(spec_handle_pre_prepare(s, p).0.current_stage is Commit),
        !(spec_handle_commit(s, c).0.current_stage is Commit),
        spec_handle_prepare(s, v).0.current_stage is Commit ==> vote_voters(
            spec_handle_prepare(s, v).0.prepare_msgs,
            v.view_id,
            v.digest,
            MsgType::PrepareMsg,
        ).len() == spec_quorum(s.n),
{
}

/// Progress, prepare side: a prepare vote from a replica not yet counted
/// is never dropped when a matching pre-prepare is on hand, and when it
/// completes the quorum of 2f+1 while the stage is Prepare, the commit
/// vote is owed: the sink emits it and moves to the Commit stage.
pub proof fn lemma_quorum_prepare_emits_commit(s: ReplicaData, v: VoteData)
    requires
        v.msg_type is PrepareMsg,
        has_preprepare(s.preprepare_msgs, v.view_id, v.digest),
        s.current_stage is Prepare,
        !vote_voters(s.prepare_msgs, v.view_id, v.digest, MsgType::PrepareMsg).contains(v.node_id),
        vote_voters(s.prepare_msgs, v.view_id, v.digest, MsgType::PrepareMsg).len() == spec_quorum(
            s.n,
        ) - 1,
    ensures
        spec_handle_prepare(s, v).1 is Some,
        spec_handle_prepare(s, v).0.current_stage is Commit,
{
    lemma_vote_voters_push(s.prepare_msgs, v, v.view_id, v.digest, MsgType::PrepareMsg);
    lemma_vote_voters_finite(s.prepare_msgs, v.view_id, v.digest, MsgType::PrepareMsg);
}

/// Progress, commit side: a commit vote from a replica not yet counted
/// that completes the quorum of 2f+1, with the request body buffered,
/// owes the reply: the sink emits it, echoing the request's operation.
pub proof fn lemma_quorum_commit_emits_reply(s: ReplicaData, c: VoteData)
    requires
        c.msg_type is CommitMsg,
        !vote_voters(s.commit_msgs, c.view_id, c.digest, MsgType::CommitMsg).contains(c.node_id),
        vote_voters(s.commit_msgs, c.view_id, c.digest, MsgType::CommitMsg).len() == spec_quorum(
            s.n,
        ) - 1,
        find_request(s.request_msgs, c.digest) is Some,
    ensures
        spec_handle_commit(s, c).1 is Some,
        spec_handle_commit(s, c).1.unwrap().result == find_request(
            s.request_msgs,
            c.digest,
        ).unwrap().operation,
        spec_handle_commit(s, c).1.unwrap().time_stamp == find_request(
            s.request_msgs,
            c.digest,
        ).unwrap().time_stamp,
        spec_handle_commit(s, c).1.unwrap().client_id == find_request(
            s.request_msgs,
            c.digest,
        ).unwrap().client_id,
        spec_handle_commit(s, c).1.unwrap().view_id == c.view_id,
        spec_handle_commit(s, c).1.unwrap().node_id == s.id,
{
    lemma_vote_voters_push(s.commit_msgs, c, c.view_id, c.digest, MsgType::CommitMsg);
    lemma_vote_voters_finite(s.commit_msgs, c.view_id, c.digest, MsgType::CommitMsg);
}

/// Digest discipline: every buffered request carries the digest of its
/// own serialized fields.
pub open spec fn digest_consistent(reqs: Seq<RequestData>) -> bool {
    forall|i: int| 0 <= i < reqs.len() ==> #[trigger] reqs[i].digest == digest_of(reqs[i])
}

/// The sinks preserve the digest discipline: the request sink stamps what
/// it buffers with the digest of its fields, and no other sink touches
/// the request buffer.
pub proof fn lemma_sinks_preserve_digest_discipline(
    s: ReplicaData,
    m: RequestData,
    p: PrePrepareData,
    v: VoteData,
    c: VoteData,
)
    requires
        digest_consistent(s.request_msgs),
    ensures
        digest_consistent(spec_handle_request(s, m).0.request_msgs),
        digest_consistent(spec_handle_pre_prepare(s, p).0.request_msgs),
        digest_consistent(spec_handle_prepare(s, v).0.request_msgs),
        digest_consistent(spec_handle_commit(s, c).0.request_msgs),
{
    let stamped = RequestData { digest: digest_of(m), ..m };
    let reqs = s.request_msgs.push(stamped);
    assert(digest_of(stamped) == digest_of(m));
    assert forall|i: int| 0 <= i < reqs.len() implies #[trigger] reqs[i].digest == digest_of(
        reqs[i],
    ) by {
        if i < s.request_msgs.len() {
            assert(reqs[i] == s.request_msgs[i]);
        } else {
            assert(reqs[i] == stamped);
        }
    }
}

/// A commit vote is sent only with a local pre-prepare for the same
/// (view, digest) on hand: the prepare sink drops votes without one.
pub proof fn lemma_commit_vote_needs_preprepare(s: ReplicaData, v: VoteData)
    requires
        spec_handle_prepare(s, v).1 is Some,
    ensures
        has_preprepare(s.preprepare_msgs, v.view_id, v.digest),
{
}

/// Safety: two replicas that each emit a reply for the same digest report
/// the same result (the echoed operation), provided the digest separates
/// the buffered requests — no two buffered requests carry the same digest
/// with different operations. A SHA-256 collision between distinct
/// operations is the one case this hypothesis excludes.
pub proof fn lemma_reply_safety(s1: ReplicaData, c1: VoteData, s2: ReplicaData, c2: VoteData)
    requires
        c1.digest == c2.digest,
        spec_handle_commit(s1, c1).1 is Some,
        spec_handle_commit(s2, c2).1 is Some,
        forall|i: int, j: int|
            0 <= i < s1.request_msgs.len() && 0 <= j < s2.request_msgs.len()
                && s1.request_msgs[i].digest == s2.request_msgs[j].digest
                ==> s1.request_msgs[i].operation == s2.request_msgs[j].operation,
    ensures
        spec_handle_commit(s1, c1).1.unwrap().result == spec_handle_commit(
            s2,
            c2,
        ).1.unwrap().result,
        spec_handle_commit(s1, c1).1.unwrap().view_id == c1.view_id,
        spec_handle_commit(s2, c2).1.unwrap().view_id == c2.view_id,
{
    let r1 = find_request(s1.request_msgs, c1.digest).unwrap();
    let r2 = find_request(s2.request_msgs, c2.digest).unwrap();
    lemma_find_request_some(s1.request_msgs, c1.digest);
    lemma_find_request_some(s2.request_msgs, c2.digest);
    let i = choose|i: int| 0 <= i < s1.request_msgs.len() && s1.request_msgs[i] == r1;
    let j = choose|j: int| 0 <= j < s2.request_msgs.len() && s2.request_msgs[j] == r2;
    assert(s1.request_msgs[i].digest == s2.request_msgs[j].digest);
    assert(s1.request_msgs[i].operation == s2.request_msgs[j].operation);
}

} // verus!
