use pbft_core::client::Client;
use pbft_core::message::{MsgType, PrePrepareMsg, ReplyMsg, RequestMsg, VoteMsg};
use pbft_core::quorum::{count_reply_voters, count_vote_voters};
use pbft_core::replica::{Node, Stage};
use pbft_core::quorum_threshold;

fn request(op: &str, ts: u64, cid: u32) -> RequestMsg {
    RequestMsg {
        operation: op.to_string(),
        time_stamp: ts,
        client_id: cid,
        sequence_id: 0,
        digest: String::new(),
    }
}

fn reply(node_id: u32, ts: u64, view_id: u32, result: &str) -> ReplyMsg {
    ReplyMsg { time_stamp: ts, view_id, node_id, client_id: 7, result: result.to_string() }
}

#[test]
fn quorum_threshold_values() {
    assert_eq!(quorum_threshold(1), 1);
    assert_eq!(quorum_threshold(4), 3);
    assert_eq!(quorum_threshold(7), 5);
    assert_eq!(quorum_threshold(10), 7);
}

#[test]
fn node_new_builds_the_peer_table() {
    let node = Node::new(2, 4, true);
    assert_eq!(node.id, 2);
    assert!(node.is_faulty);
    assert_eq!(node.n, 4);
    assert_eq!(node.view.id, 9999);
    assert_eq!(node.view.primary_node_id, 0);
    assert_eq!(node.current_stage, Stage::Idle);
    assert_eq!(node.node_table.len(), 4);
    assert_eq!(node.node_table.get(&0).unwrap(), "localhost:8000");
    assert_eq!(node.node_table.get(&3).unwrap(), "localhost:8003");
    assert!(node.request_msgs.is_empty());
    assert!(node.preprepare_msgs.is_empty());
    assert!(node.prepare_msgs.is_empty());
    assert!(node.commit_msgs.is_empty());
    assert!(node.committed_msgs.is_empty());
}

#[test]
fn client_new_builds_the_server_table() {
    let client = Client::new(4);
    assert_eq!(client.n, 4);
    assert_eq!(client.server_table.len(), 4);
    assert_eq!(client.server_table.get(&0).unwrap(), "127.0.0.1:8000");
    assert_eq!(client.server_table.get(&3).unwrap(), "127.0.0.1:8003");
    assert!(client.reply_msgs.is_empty());
}

#[test]
fn p6_client_declares_exactly_on_the_quorum_reply() {
    let mut client = Client::new(4);
    assert!(!client.handle_reply(reply(0, 1, 9999, "x")));
    assert!(!client.handle_reply(reply(1, 1, 9999, "x")));
    // a reply that disagrees on the result does not count
    assert!(!client.handle_reply(reply(2, 1, 9999, "other")));
    // a duplicate from a counted replica does not count
    assert!(!client.handle_reply(reply(1, 1, 9999, "x")));
    // the third distinct agreeing replica completes 2f+1 = 3
    assert!(client.handle_reply(reply(2, 1, 9999, "x")));
    // later agreeing replies never re-declare
    assert!(!client.handle_reply(reply(3, 1, 9999, "x")));
    assert_eq!(client.reply_msgs.len(), 6);
}

#[test]
fn replies_differing_in_view_or_timestamp_do_not_agree() {
    let mut client = Client::new(4);
    assert!(!client.handle_reply(reply(0, 1, 9999, "x")));
    assert!(!client.handle_reply(reply(1, 2, 9999, "x")));
    assert!(!client.handle_reply(reply(2, 1, 5, "x")));
    assert!(!client.handle_reply(reply(3, 1, 9999, "x")));
}

#[test]
fn preprepare_without_buffered_request_is_dropped() {
    let mut backup = Node::new(1, 4, false);
    let pp = PrePrepareMsg {
        view_id: 9999,
        sequence_id: 0,
        digest: "no-such-request".to_string(),
        request_msg: request("x", 1, 7),
    };
    assert!(backup.handle_pre_prepare(pp).is_none());
    assert!(backup.preprepare_msgs.is_empty());
    assert_eq!(backup.current_stage, Stage::Idle);
}

#[test]
fn preprepare_with_wrong_view_is_dropped() {
    let mut primary = Node::new(0, 4, false);
    let mut backup = Node::new(1, 4, false);
    let req = request("x", 1, 7);
    let (pp, _) = primary.handle_request(req.clone()).unwrap();
    backup.handle_request(req);
    let stale = PrePrepareMsg { view_id: 5, ..pp };
    assert!(backup.handle_pre_prepare(stale).is_none());
    assert!(backup.preprepare_msgs.is_empty());
}

#[test]
fn prepare_without_preprepare_is_dropped() {
    let mut backup = Node::new(1, 4, false);
    let v = VoteMsg {
        view_id: 9999,
        sequence_id: 0,
        digest: "d".to_string(),
        node_id: 0,
        msg_type: MsgType::PrepareMsg,
    };
    assert!(backup.handle_prepare(v).is_none());
    assert!(backup.prepare_msgs.is_empty());
}

#[test]
fn votes_of_the_wrong_kind_are_dropped() {
    let mut primary = Node::new(0, 4, false);
    let req = request("x", 1, 7);
    let (_, pv) = primary.handle_request(req).unwrap();
    let mislabeled = VoteMsg { node_id: 1, msg_type: MsgType::CommitMsg, ..pv.clone() };
    assert!(primary.handle_prepare(mislabeled).is_none());
    assert_eq!(primary.prepare_msgs.len(), 1);
    let mislabeled_commit = VoteMsg { node_id: 1, msg_type: MsgType::PrepareMsg, ..pv };
    assert!(primary.handle_commit(mislabeled_commit).is_none());
    assert!(primary.commit_msgs.is_empty());
}

#[test]
fn commit_quorum_without_request_body_sends_no_reply() {
    let mut node = Node::new(1, 4, false);
    let c = VoteMsg {
        view_id: 9999,
        sequence_id: 0,
        digest: "unknown".to_string(),
        node_id: 0,
        msg_type: MsgType::CommitMsg,
    };
    assert!(node.handle_commit(c.clone()).is_none());
    assert!(node.handle_commit(VoteMsg { node_id: 2, ..c.clone() }).is_none());
    // the quorum of three completes here, but the request is unknown
    assert!(node.handle_commit(VoteMsg { node_id: 3, ..c }).is_none());
    assert_eq!(node.commit_msgs.len(), 3);
}

#[test]
fn distinct_voter_counting_deduplicates() {
    let v = VoteMsg {
        view_id: 9999,
        sequence_id: 0,
        digest: "d".to_string(),
        node_id: 4,
        msg_type: MsgType::PrepareMsg,
    };
    let votes = vec![
        v.clone(),
        v.clone(),
        VoteMsg { node_id: 5, ..v.clone() },
        VoteMsg { msg_type: MsgType::CommitMsg, node_id: 6, ..v.clone() },
        VoteMsg { view_id: 5, node_id: 7, ..v.clone() },
        VoteMsg { digest: "e".to_string(), node_id: 8, ..v.clone() },
    ];
    assert_eq!(count_vote_voters(&votes, 9999, &"d".to_string(), MsgType::PrepareMsg), 2);
    assert_eq!(count_vote_voters(&votes, 9999, &"d".to_string(), MsgType::CommitMsg), 1);
    assert_eq!(count_vote_voters(&votes, 5, &"d".to_string(), MsgType::PrepareMsg), 1);
    assert_eq!(count_vote_voters(&votes, 9999, &"e".to_string(), MsgType::PrepareMsg), 1);
}

#[test]
fn distinct_reply_counting_deduplicates() {
    let replies = vec![
        reply(0, 1, 9999, "x"),
        reply(0, 1, 9999, "x"),
        reply(1, 1, 9999, "x"),
        reply(2, 1, 9999, "y"),
        reply(3, 2, 9999, "x"),
    ];
    assert_eq!(count_reply_voters(&replies, 1, 9999, &"x".to_string()), 2);
    assert_eq!(count_reply_voters(&replies, 1, 9999, &"y".to_string()), 1);
    assert_eq!(count_reply_voters(&replies, 2, 9999, &"x".to_string()), 1);
}
