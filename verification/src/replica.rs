use vstd::prelude::*;
use std::collections::HashMap;
use crate::digest::{compute_digest, digest_of};
use crate::message::{MsgType, PrePrepareData, PrePrepareMsg, ReplyData, ReplyMsg, RequestData,
    RequestMsg, VoteData, VoteMsg};
use crate::quorum::{lemma_vote_voters_finite, lemma_vote_voters_push, spec_quorum, vote_matches,
    vote_voters};
use crate::table::{build_address_table, replica_address};

verus! {

broadcast use vstd::std_specs::hash::group_hash_axioms;

/// A replica's position in the single in-flight agreement round.
#[derive(Clone, Copy, PartialEq, Eq, Structural, Debug)]
pub enum Stage {
    Idle,
    PrePrepare,
    Prepare,
    Commit,
}

/// Numeric rank of a stage, for stating that stages only move forward.
pub open spec fn stage_index(s: Stage) -> int {
    match s {
        Stage::Idle => 0,
        Stage::PrePrepare => 1,
        Stage::Prepare => 2,
        Stage::Commit => 3,
    }
}

/// Stage ordering: Idle < PrePrepare < Prepare < Commit.
pub open spec fn stage_le(a: Stage, b: Stage) -> bool {
    stage_index(a) <= stage_index(b)
}

/// The configuration that designates the primary; static in this core
/// (no view change).
#[derive(Clone, Copy, PartialEq, Eq, Structural, Debug)]
pub struct ViewInfo {
    pub id: u32,
    pub primary_node_id: u32,
}

/// One replica: its identity, the peer table, the current view and stage,
/// the sequence counter the primary assigns from, and the four protocol
/// message buffers.
pub struct Node {
    pub id: u32,
    pub is_faulty: bool,
    pub n: u32,
    pub node_table: HashMap<u32, String>,
    pub view: ViewInfo,
    pub current_stage: Stage,
    pub next_sequence_id: u32,
    pub request_msgs: Vec<RequestMsg>,
    pub preprepare_msgs: Vec<PrePrepareMsg>,
    pub prepare_msgs: Vec<VoteMsg>,
    pub commit_msgs: Vec<VoteMsg>,
    pub committed_msgs: Vec<RequestMsg>,
}

/// Mathematical model of a replica.
#[verifier::ext_equal]
pub struct ReplicaData {
    pub id: u32,
    pub is_faulty: bool,
    pub n: u32,
    pub node_table: Map<u32, Seq<char>>,
    pub view_id: u32,
    pub primary_node_id: u32,
    pub current_stage: Stage,
    pub next_sequence_id: u32,
    pub request_msgs: Seq<RequestData>,
    pub preprepare_msgs: Seq<PrePrepareData>,
    pub prepare_msgs: Seq<VoteData>,
    pub commit_msgs: Seq<VoteData>,
    pub committed_msgs: Seq<RequestData>,
}

impl View for Node {
    type V = ReplicaData;

    open spec fn view(&self) -> ReplicaData {
        ReplicaData {
            id: self.id,
            is_faulty: self.is_faulty,
            n: self.n,
            node_table: self.node_table@.map_values(|s: String| s@),
            view_id: self.view.id,
            primary_node_id: self.view.primary_node_id,
            current_stage: self.current_stage,
            next_sequence_id: self.next_sequence_id,
            request_msgs: self.request_msgs.deep_view(),
            preprepare_msgs: self.preprepare_msgs.deep_view(),
            prepare_msgs: self.prepare_msgs.deep_view(),
            commit_msgs: self.commit_msgs.deep_view(),
            committed_msgs: self.committed_msgs.deep_view(),
        }
    }
}

impl ReplicaData {
    /// Well-formedness: the ensemble is non-empty, so f = (n - 1) / 3 is
    /// defined.
    pub open spec fn wf(self) -> bool {
        self.n >= 1
    }
}

impl Node {
    /// Well-formedness of the executable replica.
    pub open spec fn wf(self) -> bool {
        self@.wf()
    }
}

/// First buffered request carrying the given digest, if any.
pub open spec fn find_request(reqs: Seq<RequestData>, d: Seq<char>) -> Option<RequestData>
    decreases reqs.len(),
{
    if reqs.len() == 0 {
        None
    } else if reqs.first().digest == d {
        Some(reqs.first())
    } else {
        find_request(reqs.drop_first(), d)
    }
}

/// Whether some buffered request carries the given digest.
pub open spec fn has_request(reqs: Seq<RequestData>, d: Seq<char>) -> bool {
    find_request(reqs, d) is Some
}

/// Whether the pre-prepare buffer holds an entry for (view, digest).
pub open spec fn has_preprepare(pps: Seq<PrePrepareData>, view_id: u32, d: Seq<char>) -> bool {
    exists|i: int| 0 <= i < pps.len() && pps[i].view_id == view_id && pps[i].digest == d
}

/// A found request is a buffer entry and carries the digest looked for.
pub proof fn lemma_find_request_some(reqs: Seq<RequestData>, d: Seq<char>)
    requires
        find_request(reqs, d) is Some,
    ensures
        reqs.contains(find_request(reqs, d).unwrap()),
        find_request(reqs, d).unwrap().digest == d,
    decreases reqs.len(),
{
    if reqs.len() > 0 && !(reqs.first().digest == d) {
        lemma_find_request_some(reqs.drop_first(), d);
        let r = find_request(reqs.drop_first(), d).unwrap();
        let i = choose|i: int| 0 <= i < reqs.drop_first().len() && reqs.drop_first()[i] == r;
        assert(reqs[i + 1] == r);
    }
}

/// The request sink: stamp the request with its digest, buffer it, leave
/// Idle, and — on the primary — assign the next sequence number, log the
/// pre-prepare locally, record the own prepare vote (the pre-prepare
/// stands for the primary's prepare), move on to Prepare, and emit both
/// messages to multicast.
pub open spec fn spec_handle_request(s: ReplicaData, m: RequestData) -> (ReplicaData, Option<(
    PrePrepareData,
    VoteData,
)>) {
    let stamped = RequestData { digest: digest_of(m), ..m };
    let stage1 = if s.current_stage is Idle {
        Stage::PrePrepare
    } else {
        s.current_stage
    };
    let s1 = ReplicaData { request_msgs: s.request_msgs.push(stamped), current_stage: stage1, ..s };
    if s.id == s.primary_node_id {
        let assigned = RequestData { sequence_id: s.next_sequence_id, ..stamped };
        let pp = PrePrepareData {
            view_id: s.view_id,
            sequence_id: s.next_sequence_id,
            digest: stamped.digest,
            request_msg: assigned,
        };
        let pv = VoteData {
            view_id: s.view_id,
            sequence_id: s.next_sequence_id,
            digest: stamped.digest,
            node_id: s.id,
            msg_type: MsgType::PrepareMsg,
        };
        let s2 = ReplicaData {
            next_sequence_id: (s.next_sequence_id + 1) as u32,
            current_stage: if stage1 is PrePrepare {
                Stage::Prepare
            } else {
                stage1
            },
            preprepare_msgs: s1.preprepare_msgs.push(pp),
            prepare_msgs: s1.prepare_msgs.push(pv),
            ..s1
        };
        (s2, Some((pp, pv)))
    } else {
        (s1, None)
    }
}

/// A backup accepts a pre-prepare iff the request it names is buffered
/// and the pre-prepare's view is the current view.
pub open spec fn accepts_preprepare(s: ReplicaData, p: PrePrepareData) -> bool {
    has_request(s.request_msgs, p.digest) && p.view_id == s.view_id
}

/// The pre-prepare sink: drop unless the named request is buffered and
/// the view matches; otherwise record the pre-prepare, move PrePrepare →
/// Prepare, record the own prepare vote, and emit it to multicast.
pub open spec fn spec_handle_pre_prepare(s: ReplicaData, p: PrePrepareData) -> (ReplicaData, Option<
    VoteData,
>) {
    if !accepts_preprepare(s, p) {
        (s, None)
    } else {
        let v = VoteData {
            view_id: p.view_id,
            sequence_id: p.sequence_id,
            digest: p.digest,
            node_id: s.id,
            msg_type: MsgType::PrepareMsg,
        };
        let s1 = ReplicaData {
            preprepare_msgs: s.preprepare_msgs.push(p),
            current_stage: if s.current_stage is PrePrepare {
                Stage::Prepare
            } else {
                s.current_stage
            },
            prepare_msgs: s.prepare_msgs.push(v),
            ..s
        };
        (s1, Some(v))
    }
}

/// The prepare sink: drop votes of the wrong kind or without a matching
/// pre-prepare; otherwise record the vote, and when the distinct prepare
/// quorum 2f+1 is first completed while the stage is Prepare, move to
/// Commit, record the own commit vote, and emit it to multicast.
pub open spec fn spec_handle_prepare(s: ReplicaData, v: VoteData) -> (ReplicaData, Option<
    VoteData,
>) {
    if !(v.msg_type is PrepareMsg) || !has_preprepare(s.preprepare_msgs, v.view_id, v.digest) {
        (s, None)
    } else {
        let s1 = ReplicaData { prepare_msgs: s.prepare_msgs.push(v), ..s };
        let newly = !vote_voters(s.prepare_msgs, v.view_id, v.digest, MsgType::PrepareMsg).contains(
            v.node_id,
        );
        let count = vote_voters(s1.prepare_msgs, v.view_id, v.digest, MsgType::PrepareMsg).len();
        if newly && count == spec_quorum(s.n) && s.current_stage is Prepare {
            let c = VoteData {
                view_id: v.view_id,
                sequence_id: v.sequence_id,
                digest: v.digest,
                node_id: s.id,
                msg_type: MsgType::CommitMsg,
            };
            let s2 = ReplicaData {
                current_stage: Stage::Commit,
                commit_msgs: s.commit_msgs.push(c),
                ..s1
            };
            (s2, Some(c))
        } else {
            (s1, None)
        }
    }
}

/// The commit sink: drop votes of the wrong kind; otherwise record the
/// vote, and when the distinct commit quorum 2f+1 is first completed and
/// the named request is buffered, execute (echo) its operation and emit
/// the reply for the client.
pub open spec fn spec_handle_commit(s: ReplicaData, c: VoteData) -> (ReplicaData, Option<
    ReplyData,
>) {
    if !(c.msg_type is CommitMsg) {
        (s, None)
    } else {
        let s1 = ReplicaData { commit_msgs: s.commit_msgs.push(c), ..s };
        let newly = !vote_voters(s.commit_msgs, c.view_id, c.digest, MsgType::CommitMsg).contains(
            c.node_id,
        );
        let count = vote_voters(s1.commit_msgs, c.view_id, c.digest, MsgType::CommitMsg).len();
        if newly && count == spec_quorum(s.n) {
            match find_request(s.request_msgs, c.digest) {
                Some(req) => {
                    let r = ReplyData {
                        time_stamp: req.time_stamp,
                        view_id: c.view_id,
                        node_id: s.id,
                        client_id: req.client_id,
                        result: req.operation,
                    };
                    (s1, Some(r))
                },
                None => (s1, None),
            }
        } else {
            (s1, None)
        }
    }
}

/// A field-by-field copy of a request, with its view preserved.
fn clone_request(m: &RequestMsg) -> (r: RequestMsg)
    ensures
        r@ == m@,
{
    RequestMsg {
        operation: m.operation.clone(),
        time_stamp: m.time_stamp,
        client_id: m.client_id,
        sequence_id: m.sequence_id,
        digest: m.digest.clone(),
    }
}

/// A field-by-field copy of a vote, with its view preserved.
fn clone_vote(v: &VoteMsg) -> (r: VoteMsg)
    ensures
        r@ == v@,
{
    VoteMsg {
        view_id: v.view_id,
        sequence_id: v.sequence_id,
        digest: v.digest.clone(),
        node_id: v.node_id,
        msg_type: v.msg_type,
    }
}

/// A field-by-field copy of a pre-prepare, with its view preserved.
fn clone_preprepare(p: &PrePrepareMsg) -> (r: PrePrepareMsg)
    ensures
        r@ == p@,
{
    PrePrepareMsg {
        view_id: p.view_id,
        sequence_id: p.sequence_id,
        digest: p.digest.clone(),
        request_msg: clone_request(&p.request_msg),
    }
}

/// Index of the first buffered request with the given digest, if any.
fn find_request_index(buf: &Vec<RequestMsg>, d: &String) -> (r: Option<usize>)
    ensures
        match r {
            Some(i) => i < buf@.len() && find_request(buf.deep_view(), d@) == Some(
                buf.deep_view()[i as int],
            ),
            None => find_request(buf.deep_view(), d@) is None,
        },
{
    let ghost whole = buf.deep_view();
    proof {
        assert(whole.skip(0) =~= whole);
    }
    let mut i: usize = 0;
    while i < buf.len()
        invariant
            i <= whole.len(),
            whole == buf.deep_view(),
            find_request(whole, d@) == find_request(whole.skip(i as int), d@),
        decreases whole.len() - i,
    {
        proof {
            assert(whole.skip(i as int).first() == whole[i as int]);
        }
        if buf[i].digest == *d {
            proof {
                assert(find_request(whole.skip(i as int), d@) == Some(whole[i as int]));
            }
            return Some(i);
        }
        proof {
            assert(whole.skip(i as int).drop_first() =~= whole.skip(i + 1));
        }
        i = i + 1;
    }
    proof {
        assert(whole.skip(whole.len() as int).len() == 0);
    }
    None
}

/// Whether the pre-prepare buffer holds an entry for (view, digest).
fn has_preprepare_for(buf: &Vec<PrePrepareMsg>, view_id: u32, d: &String) -> (r: bool)
    ensures
        r == has_preprepare(buf.deep_view(), view_id, d@),
{
    let mut i: usize = 0;
    while i < buf.len()
        invariant
            i <= buf@.len(),
            forall|j: int|
                0 <= j < i ==> !(buf.deep_view()[j].view_id == view_id && buf.deep_view()[j].digest
                    == d@),
        decreases buf@.len() - i,
    {
        if buf[i].view_id == view_id && buf[i].digest == *d {
            assert(buf.deep_view()[i as int].view_id == view_id && buf.deep_view()[i as int].digest
                == d@);
            return true;
        }
        i = i + 1;
    }
    false
}

impl Node {
    /// Build a replica: empty buffers, stage Idle, the static view (id
    /// 9999, primary node 0), and the peer table mapping each id below
    /// `n` to its address.
    pub fn new(id: u32, n: u32, is_faulty: bool) -> (node: Node)
        requires
            n >= 1,
        ensures
            node.wf(),
            node@.id == id,
            node@.is_faulty == is_faulty,
            node@.n == n,
            node@.view_id == 9999,
            node@.primary_node_id == 0,
            node@.current_stage is Idle,
            node@.next_sequence_id == 0,
            node@.request_msgs.len() == 0,
            node@.preprepare_msgs.len() == 0,
            node@.prepare_msgs.len() == 0,
            node@.commit_msgs.len() == 0,
            node@.committed_msgs.len() == 0,
            node@.node_table.dom() == Set::new(|k: u32| k < n),
            forall|k: u32| k < n ==> node@.node_table[k] == replica_address(k),
    {
        let node_table = build_address_table("localhost:", n);
        let node = Node {
            id,
            is_faulty,
            n,
            node_table,
            view: ViewInfo { id: 9999, primary_node_id: 0 },
            current_stage: Stage::Idle,
            next_sequence_id: 0,
            request_msgs: Vec::new(),
            preprepare_msgs: Vec::new(),
            prepare_msgs: Vec::new(),
            commit_msgs: Vec::new(),
            committed_msgs: Vec::new(),
        };
        proof {
            assert(node@.node_table =~= node.node_table@.map_values(|s: String| s@));
        }
        node
    }

    /// The request sink. On the primary, returns the pre-prepare and the
    /// primary's own prepare vote, both to multicast; on a backup, `None`.
    pub fn handle_request(&mut self, request_msg: RequestMsg) -> (out: Option<(
        PrePrepareMsg,
        VoteMsg,
    )>)
        requires
            old(self).wf(),
            old(self).next_sequence_id < u32::MAX,
        ensures
            final(self).wf(),
            final(self)@ == spec_handle_request(old(self)@, request_msg@).0,
            out is Some <==> spec_handle_request(old(self)@, request_msg@).1 is Some,
            out matches Some(o) ==> spec_handle_request(old(self)@, request_msg@).1 == Some(
                (o.0@, o.1@),
            ),
            stage_le(old(self)@.current_stage, final(self)@.current_stage),
    {
        let ghost s0 = self@;
        let ghost m0 = request_msg@;
        let mut m = request_msg;
        let d = compute_digest(&m);
        m.digest = d;
        let stored = clone_request(&m);
        self.request_msgs.push(stored);
        proof {
            assert(self.request_msgs.deep_view() =~= s0.request_msgs.push(
                RequestData { digest: digest_of(m0), ..m0 },
            ));
        }
        if self.current_stage == Stage::Idle {
            self.current_stage = Stage::PrePrepare;
        }
        if self.id == self.view.primary_node_id {
            let seq_id = self.next_sequence_id;
            self.next_sequence_id = seq_id + 1;
            let digest = m.digest.clone();
            let mut assigned = m;
            assigned.sequence_id = seq_id;
            let pre_prepare_msg = PrePrepareMsg {
                view_id: self.view.id,
                sequence_id: seq_id,
                digest,
                request_msg: assigned,
            };
            let prepare_msg = VoteMsg {
                view_id: self.view.id,
                sequence_id: seq_id,
                digest: pre_prepare_msg.digest.clone(),
                node_id: self.id,
                msg_type: MsgType::PrepareMsg,
            };
            self.preprepare_msgs.push(clone_preprepare(&pre_prepare_msg));
            self.prepare_msgs.push(clone_vote(&prepare_msg));
            if self.current_stage == Stage::PrePrepare {
                self.current_stage = Stage::Prepare;
            }
            proof {
                assert(self.preprepare_msgs.deep_view() =~= s0.preprepare_msgs.push(
                    pre_prepare_msg@,
                ));
                assert(self.prepare_msgs.deep_view() =~= s0.prepare_msgs.push(prepare_msg@));
                assert(self@ =~= spec_handle_request(s0, m0).0);
                assert(spec_handle_request(s0, m0).1 == Some((pre_prepare_msg@, prepare_msg@)));
            }
            Some((pre_prepare_msg, prepare_msg))
        } else {
            proof {
                assert(self@ =~= spec_handle_request(s0, m0).0);
            }
            None
        }
    }

    /// The pre-prepare sink (backup side). Returns the prepare vote to
    /// multicast, or `None` when the message is dropped.
    pub fn handle_pre_prepare(&mut self, pre_prepare_msg: PrePrepareMsg) -> (out: Option<VoteMsg>)
        requires
            old(self).wf(),
        ensures
            final(self).wf(),
            final(self)@ == spec_handle_pre_prepare(old(self)@, pre_prepare_msg@).0,
            out.deep_view() == spec_handle_pre_prepare(old(self)@, pre_prepare_msg@).1,
            stage_le(old(self)@.current_stage, final(self)@.current_stage),
    {
        let ghost s0 = self@;
        let ghost p0 = pre_prepare_msg@;
        let idx = match find_request_index(&self.request_msgs, &pre_prepare_msg.digest) {
            Some(i) => i,
            None => {
                return None;
            },
        };
        let req_digest = self.request_msgs[idx].digest.clone();
        proof {
            lemma_find_request_some(s0.request_msgs, p0.digest);
            assert(req_digest@ == p0.digest);
        }
        if !crate::digest::verify_msg(&pre_prepare_msg, self.view.id, req_digest) {
            return None;
        }
        let view_id = pre_prepare_msg.view_id;
        let sequence_id = pre_prepare_msg.sequence_id;
        let digest = pre_prepare_msg.digest.clone();
        self.preprepare_msgs.push(pre_prepare_msg);
        if self.current_stage == Stage::PrePrepare {
            self.current_stage = Stage::Prepare;
        }
        let prepare_msg = VoteMsg {
            view_id,
            sequence_id,
            digest,
            node_id: self.id,
            msg_type: MsgType::PrepareMsg,
        };
        self.prepare_msgs.push(clone_vote(&prepare_msg));
        proof {
            assert(self.preprepare_msgs.deep_view() =~= s0.preprepare_msgs.push(p0));
            assert(self.prepare_msgs.deep_view() =~= s0.prepare_msgs.push(prepare_msg@));
            assert(self@ =~= spec_handle_pre_prepare(s0, p0).0);
            assert(Some(prepare_msg).deep_view() =~~= spec_handle_pre_prepare(s0, p0).1);
        }
        Some(prepare_msg)
    }

    /// The prepare sink. Returns the commit vote to multicast when the
    /// prepare quorum is first completed, `None` otherwise.
    pub fn handle_prepare(&mut self, prepare_msg: VoteMsg) -> (out: Option<VoteMsg>)
        requires
            old(self).wf(),
        ensures
            final(self).wf(),
            final(self)@ == spec_handle_prepare(old(self)@, prepare_msg@).0,
            out.deep_view() == spec_handle_prepare(old(self)@, prepare_msg@).1,
            stage_le(old(self)@.current_stage, final(self)@.current_stage),
    {
        let ghost s0 = self@;
        let ghost v0 = prepare_msg@;
        if !(prepare_msg.msg_type == MsgType::PrepareMsg) {
            return None;
        }
        if !has_preprepare_for(&self.preprepare_msgs, prepare_msg.view_id, &prepare_msg.digest) {
            return None;
        }
        let cnt_before = crate::quorum::count_vote_voters(
            &self.prepare_msgs,
            prepare_msg.view_id,
            &prepare_msg.digest,
            MsgType::PrepareMsg,
        );
        self.prepare_msgs.push(clone_vote(&prepare_msg));
        proof {
            assert(self.prepare_msgs.deep_view() =~= s0.prepare_msgs.push(v0));
            lemma_vote_voters_push(s0.prepare_msgs, v0, v0.view_id, v0.digest, MsgType::PrepareMsg);
            lemma_vote_voters_finite(s0.prepare_msgs, v0.view_id, v0.digest, MsgType::PrepareMsg);
            assert(vote_matches(v0, v0.view_id, v0.digest, MsgType::PrepareMsg));
        }
        let cnt_after = crate::quorum::count_vote_voters(
            &self.prepare_msgs,
            prepare_msg.view_id,
            &prepare_msg.digest,
            MsgType::PrepareMsg,
        );
        let f = (self.n - 1) / 3;
        proof {
            assert((s0.n - 1) / 3 <= 1431655764) by {
                assert(s0.n - 1 <= 0xffff_ffff);
            };
        }
        let quorum: usize = (2 * f + 1) as usize;
        if cnt_after == quorum && cnt_after == cnt_before + 1 && self.current_stage
            == Stage::Prepare {
            self.current_stage = Stage::Commit;
            let commit_msg = VoteMsg {
                view_id: prepare_msg.view_id,
                sequence_id: prepare_msg.sequence_id,
                digest: prepare_msg.digest,
                node_id: self.id,
                msg_type: MsgType::CommitMsg,
            };
            self.commit_msgs.push(clone_vote(&commit_msg));
            proof {
                assert(self.commit_msgs.deep_view() =~= s0.commit_msgs.push(commit_msg@));
                assert(self@ =~= spec_handle_prepare(s0, v0).0);
                assert(Some(commit_msg).deep_view() =~~= spec_handle_prepare(s0, v0).1);
            }
            Some(commit_msg)
        } else {
            proof {
                assert(self@ =~= spec_handle_prepare(s0, v0).0);
            }
            None
        }
    }

    /// The commit sink. Returns the reply to send the client when the
    /// commit quorum is first completed and the request body is present,
    /// `None` otherwise.
    pub fn handle_commit(&mut self, commit_msg: VoteMsg) -> (out: Option<ReplyMsg>)
        requires
            old(self).wf(),
        ensures
            final(self).wf(),
            final(self)@ == spec_handle_commit(old(self)@, commit_msg@).0,
            out.deep_view() == spec_handle_commit(old(self)@, commit_msg@).1,
            final(self)@.current_stage == old(self)@.current_stage,
    {
        let ghost s0 = self@;
        let ghost c0 = commit_msg@;
        if !(commit_msg.msg_type == MsgType::CommitMsg) {
            return None;
        }
        let cnt_before = crate::quorum::count_vote_voters(
            &self.commit_msgs,
            commit_msg.view_id,
            &commit_msg.digest,
            MsgType::CommitMsg,
        );
        self.commit_msgs.push(clone_vote(&commit_msg));
        proof {
            assert(self.commit_msgs.deep_view() =~= s0.commit_msgs.push(c0));
            lemma_vote_voters_push(s0.commit_msgs, c0, c0.view_id, c0.digest, MsgType::CommitMsg);
            lemma_vote_voters_finite(s0.commit_msgs, c0.view_id, c0.digest, MsgType::CommitMsg);
            assert(vote_matches(c0, c0.view_id, c0.digest, MsgType::CommitMsg));
        }
        let cnt_after = crate::quorum::count_vote_voters(
            &self.commit_msgs,
            commit_msg.view_id,
            &commit_msg.digest,
            MsgType::CommitMsg,
        );
        let f = (self.n - 1) / 3;
        proof {
            assert((s0.n - 1) / 3 <= 1431655764) by {
                assert(s0.n - 1 <= 0xffff_ffff);
            };
        }
        let quorum: usize = (2 * f + 1) as usize;
        if cnt_after == quorum && cnt_after == cnt_before + 1 {
            match find_request_index(&self.request_msgs, &commit_msg.digest) {
                Some(idx) => {
                    let req = &self.request_msgs[idx];
                    let reply_msg = ReplyMsg {
                        time_stamp: req.time_stamp,
                        view_id: commit_msg.view_id,
                        node_id: self.id,
                        client_id: req.client_id,
                        result: req.operation.clone(),
                    };
                    proof {
                        assert(self@ =~= spec_handle_commit(s0, c0).0);
                        assert(Some(reply_msg).deep_view() =~~= spec_handle_commit(s0, c0).1);
                    }
                    Some(reply_msg)
                },
                None => {
                    proof {
                        assert(self@ =~= spec_handle_commit(s0, c0).0);
                    }
                    None
                },
            }
        } else {
            proof {
                assert(self@ =~= spec_handle_commit(s0, c0).0);
            }
            None
        }
    }
}

} // verus!
