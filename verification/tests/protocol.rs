use pbft_core::client::Client;
use pbft_core::message::{PrePrepareMsg, ReplyMsg, RequestMsg, VoteMsg};
use pbft_core::replica::{Node, Stage};

fn new_request(op: &str, ts: u64, cid: u32) -> RequestMsg {
    RequestMsg {
        operation: op.to_string(),
        time_stamp: ts,
        client_id: cid,
        sequence_id: 0,
        digest: String::new(),
    }
}

/// Drive one agreement round among `n` replicas. The request reaches every
/// id in `request_to`; the primary's pre-prepare (and its prepare vote)
/// reach every participating peer except the ids in `miss_preprepare`.
/// Every emitted vote is multicast to all of `request_to` but its sender.
/// Returns the replicas and the replies they emitted, in emission order.
fn run_round(
    n: u32,
    request_to: &[u32],
    miss_preprepare: &[u32],
    req: RequestMsg,
) -> (Vec<Node>, Vec<ReplyMsg>) {
    let mut nodes: Vec<Node> = (0..n).map(|i| Node::new(i, n, false)).collect();
    let mut primary_out: Option<(PrePrepareMsg, VoteMsg)> = None;
    for &i in request_to {
        let out = nodes[i as usize].handle_request(req.clone());
        if out.is_some() {
            primary_out = out;
        }
    }
    let mut prepare_votes: Vec<VoteMsg> = Vec::new();
    if let Some((pp, pv)) = primary_out {
        for &i in request_to {
            if i != 0 && !miss_preprepare.contains(&i) {
                if let Some(v) = nodes[i as usize].handle_pre_prepare(pp.clone()) {
                    prepare_votes.push(v);
                }
            }
        }
        prepare_votes.push(pv);
    }
    let mut commit_votes: Vec<VoteMsg> = Vec::new();
    for v in &prepare_votes {
        for &i in request_to {
            if i != v.node_id {
                if let Some(c) = nodes[i as usize].handle_prepare(v.clone()) {
                    commit_votes.push(c);
                }
            }
        }
    }
    let mut replies: Vec<ReplyMsg> = Vec::new();
    for c in &commit_votes {
        for &i in request_to {
            if i != c.node_id {
                if let Some(r) = nodes[i as usize].handle_commit(c.clone()) {
                    replies.push(r);
                }
            }
        }
    }
    (nodes, replies)
}

fn gather(n: u32, replies: &[ReplyMsg]) -> (bool, usize) {
    let mut client = Client::new(n);
    let mut declared = false;
    let mut declarations = 0usize;
    for r in replies {
        if client.handle_reply(r.clone()) {
            declared = true;
            declarations += 1;
        }
    }
    (declared, declarations)
}

#[test]
fn s1_all_honest_n4_reaches_consensus() {
    let (nodes, replies) = run_round(4, &[0, 1, 2, 3], &[], new_request("x", 1, 7));
    for node in &nodes {
        assert_eq!(node.current_stage, Stage::Commit);
    }
    assert!(replies.len() >= 3);
    for r in &replies {
        assert_eq!(r.result, "x");
        assert_eq!(r.time_stamp, 1);
        assert_eq!(r.client_id, 7);
        assert_eq!(r.view_id, 9999);
    }
    let (declared, declarations) = gather(4, &replies);
    assert!(declared);
    assert_eq!(declarations, 1);
}

#[test]
fn s2_one_replica_misses_preprepare() {
    let (nodes, replies) = run_round(4, &[0, 1, 2, 3], &[3], new_request("x", 1, 7));
    for i in 0..3 {
        assert_eq!(nodes[i].current_stage, Stage::Commit);
    }
    // the replica that missed the pre-prepare never left the stage the
    // request put it in
    assert_eq!(nodes[3].current_stage, Stage::PrePrepare);
    assert!(replies.len() >= 3);
    for r in &replies {
        assert_eq!(r.result, "x");
    }
    let (declared, _) = gather(4, &replies);
    assert!(declared);
}

#[test]
fn s3_primary_silent_no_progress() {
    // the request never reaches the primary, so no pre-prepare is issued
    let (nodes, replies) = run_round(4, &[1, 2, 3], &[], new_request("x", 1, 7));
    assert_eq!(nodes[0].current_stage, Stage::Idle);
    for i in 1..4 {
        assert_eq!(nodes[i].current_stage, Stage::PrePrepare);
        assert!(nodes[i].preprepare_msgs.is_empty());
        assert!(nodes[i].prepare_msgs.is_empty());
    }
    assert!(replies.is_empty());
    let (declared, _) = gather(4, &replies);
    assert!(!declared);
}

#[test]
fn s4_n7_five_participants_reach_consensus() {
    let (nodes, replies) = run_round(7, &[0, 1, 2, 3, 4], &[], new_request("y", 9, 2));
    for i in 0..5 {
        assert_eq!(nodes[i].current_stage, Stage::Commit);
    }
    assert!(replies.len() >= 5);
    let (declared, _) = gather(7, &replies);
    assert!(declared);
}

#[test]
fn s4_n7_four_participants_stall() {
    let (nodes, replies) = run_round(7, &[0, 1, 2, 3], &[], new_request("y", 9, 2));
    // 2f+1 = 5 distinct prepare votes never gather among four replicas
    for node in &nodes {
        assert_ne!(node.current_stage, Stage::Commit);
    }
    assert!(replies.is_empty());
    let (declared, _) = gather(7, &replies);
    assert!(!declared);
}

#[test]
fn s6_replaying_a_request_starts_an_independent_round() {
    let mut primary = Node::new(0, 4, false);
    let req = new_request("again", 5, 3);
    let first = primary.handle_request(req.clone()).expect("primary emits a pre-prepare");
    let second = primary.handle_request(req.clone()).expect("primary emits a pre-prepare");
    assert_eq!(primary.request_msgs.len(), 2);
    assert_eq!(first.0.sequence_id, 0);
    assert_eq!(second.0.sequence_id, 1);
    assert_eq!(first.0.digest, second.0.digest);
    assert_eq!(primary.request_msgs[0].digest, primary.request_msgs[1].digest);
}

#[test]
fn backup_stage_visits_forward_only() {
    // a backup's stage moves forward only: Idle, then PrePrepare on the
    // request, then Prepare on the pre-prepare, then Commit on the
    // 2f+1st distinct prepare
    let mut primary = Node::new(0, 4, false);
    let mut backup = Node::new(1, 4, false);
    assert_eq!(backup.current_stage, Stage::Idle);
    let req = new_request("x", 1, 7);
    let (pp, pv) = primary.handle_request(req.clone()).unwrap();
    backup.handle_request(req.clone());
    assert_eq!(backup.current_stage, Stage::PrePrepare);
    let own_vote = backup.handle_pre_prepare(pp.clone()).unwrap();
    assert_eq!(backup.current_stage, Stage::Prepare);
    assert!(backup.handle_prepare(pv.clone()).is_none());
    assert_eq!(backup.current_stage, Stage::Prepare);
    let other = VoteMsg { node_id: 2, ..own_vote.clone() };
    let commit = backup.handle_prepare(other);
    assert!(commit.is_some());
    assert_eq!(backup.current_stage, Stage::Commit);
}

#[test]
fn prepare_quorum_triggers_commit_only_once() {
    // the Prepare→Commit transition fires at most once per round
    let mut primary = Node::new(0, 4, false);
    let mut backup = Node::new(1, 4, false);
    let req = new_request("x", 1, 7);
    let (pp, pv) = primary.handle_request(req.clone()).unwrap();
    backup.handle_request(req.clone());
    let own_vote = backup.handle_pre_prepare(pp).unwrap();
    assert!(backup.handle_prepare(pv).is_none());
    let v2 = VoteMsg { node_id: 2, ..own_vote.clone() };
    assert!(backup.handle_prepare(v2).is_some());
    // further matching prepares are stored but trigger nothing
    let v3 = VoteMsg { node_id: 3, ..own_vote.clone() };
    assert!(backup.handle_prepare(v3).is_none());
    assert_eq!(backup.current_stage, Stage::Commit);
    let v2_again = VoteMsg { node_id: 2, ..own_vote };
    assert!(backup.handle_prepare(v2_again).is_none());
}

#[test]
fn commit_quorum_replies_only_once() {
    // at most one reply per (view, digest), also under replayed votes
    let mut primary = Node::new(0, 4, false);
    let mut backup = Node::new(1, 4, false);
    let req = new_request("x", 1, 7);
    let (pp, pv) = primary.handle_request(req.clone()).unwrap();
    backup.handle_request(req);
    let own_vote = backup.handle_pre_prepare(pp).unwrap();
    backup.handle_prepare(pv);
    let commit = backup.handle_prepare(VoteMsg { node_id: 2, ..own_vote.clone() }).unwrap();
    // own commit vote is already recorded; two more distinct ones complete
    // the quorum of three
    assert!(backup.handle_commit(VoteMsg { node_id: 0, ..commit.clone() }).is_none());
    let reply = backup.handle_commit(VoteMsg { node_id: 2, ..commit.clone() });
    assert!(reply.is_some());
    assert_eq!(reply.unwrap().result, "x");
    // a duplicate and a fresh fourth vote both emit nothing further
    assert!(backup.handle_commit(VoteMsg { node_id: 2, ..commit.clone() }).is_none());
    assert!(backup.handle_commit(VoteMsg { node_id: 3, ..commit }).is_none());
}

#[test]
fn duplicate_votes_do_not_count_toward_quorum() {
    let mut primary = Node::new(0, 4, false);
    let mut backup = Node::new(1, 4, false);
    let req = new_request("x", 1, 7);
    let (pp, pv) = primary.handle_request(req.clone()).unwrap();
    backup.handle_request(req);
    backup.handle_pre_prepare(pp).unwrap();
    assert!(backup.handle_prepare(pv.clone()).is_none());
    // replaying the primary's vote adds entries but no distinct voter
    assert!(backup.handle_prepare(pv.clone()).is_none());
    assert!(backup.handle_prepare(pv).is_none());
    assert_eq!(backup.current_stage, Stage::Prepare);
    assert_eq!(backup.prepare_msgs.len(), 4);
}
