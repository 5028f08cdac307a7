use vstd::prelude::*;
use std::collections::HashMap;
use crate::message::{ReplyData, ReplyMsg};
use crate::quorum::{count_reply_voters, lemma_reply_voters_finite, lemma_reply_voters_push,
    reply_matches, reply_voters, spec_quorum};
use crate::table::{build_address_table, server_address};

verus! {

/// The client: the ensemble size it submits to, its id → address table
/// of replicas, and the replies gathered so far.
pub struct Client {
    pub n: u32,
    pub server_table: HashMap<u32, String>,
    pub reply_msgs: Vec<ReplyMsg>,
}

/// Mathematical model of the client.
#[verifier::ext_equal]
pub struct ClientData {
    pub n: u32,
    pub server_table: Map<u32, Seq<char>>,
    pub reply_msgs: Seq<ReplyData>,
}

impl View for Client {
    type V = ClientData;

    open spec fn view(&self) -> ClientData {
        ClientData {
            n: self.n,
            server_table: self.server_table@.map_values(|s: String| s@),
            reply_msgs: self.reply_msgs.deep_view(),
        }
    }
}

impl ClientData {
    /// Well-formedness: the ensemble is non-empty, so f = (n - 1) / 3 is
    /// defined.
    pub open spec fn wf(self) -> bool {
        self.n >= 1
    }
}

/// The reply sink: record the reply; consensus is declared exactly when
/// this reply completes the distinct quorum of 2f+1 replies agreeing on
/// its (timestamp, view, result).
pub open spec fn spec_handle_reply(s: ClientData, r: ReplyData) -> (ClientData, bool) {
    let s1 = ClientData { reply_msgs: s.reply_msgs.push(r), ..s };
    let newly = !reply_voters(s.reply_msgs, r.time_stamp, r.view_id, r.result).contains(r.node_id);
    let count = reply_voters(s1.reply_msgs, r.time_stamp, r.view_id, r.result).len();
    (s1, newly && count == spec_quorum(s.n))
}

/// A field-by-field copy of a reply, with its view preserved.
fn clone_reply(r: &ReplyMsg) -> (c: ReplyMsg)
    ensures
        c@ == r@,
{
    ReplyMsg {
        time_stamp: r.time_stamp,
        view_id: r.view_id,
        node_id: r.node_id,
        client_id: r.client_id,
        result: r.result.clone(),
    }
}

impl Client {
    /// Well-formedness of the executable client.
    pub open spec fn wf(self) -> bool {
        self@.wf()
    }

    /// Build a client for an ensemble of `n` replicas, with an empty
    /// reply buffer and the id → address table of the replicas.
    pub fn new(n: u32) -> (c: Client)
        requires
            n >= 1,
        ensures
            c.wf(),
            c@.n == n,
            c@.reply_msgs.len() == 0,
            c@.server_table.dom() == Set::new(|k: u32| k < n),
            forall|k: u32| k < n ==> c@.server_table[k] == server_address(k),
    {
        let server_table = build_address_table("127.0.0.1:", n);
        let c = Client { n, server_table, reply_msgs: Vec::new() };
        proof {
            assert(c@.server_table =~= c.server_table@.map_values(|s: String| s@));
        }
        c
    }

    /// The reply sink. Returns true exactly when this reply first
    /// completes the quorum of 2f+1 replies from distinct replicas that
    /// agree on (timestamp, view, result): the client then declares
    /// consensus on that result.
    pub fn handle_reply(&mut self, reply_msg: ReplyMsg) -> (declared: bool)
        requires
            old(self).wf(),
        ensures
            final(self).wf(),
            final(self)@ == spec_handle_reply(old(self)@, reply_msg@).0,
            declared == spec_handle_reply(old(self)@, reply_msg@).1,
            declared <==> (!reply_voters(
                old(self)@.reply_msgs,
                reply_msg@.time_stamp,
                reply_msg@.view_id,
                reply_msg@.result,
            ).contains(reply_msg@.node_id) && reply_voters(
                final(self)@.reply_msgs,
                reply_msg@.time_stamp,
                reply_msg@.view_id,
                reply_msg@.result,
            ).len() == spec_quorum(old(self)@.n)),
    {
        let ghost s0 = self@;
        let ghost r0 = reply_msg@;
        let cnt_before = count_reply_voters(
            &self.reply_msgs,
            reply_msg.time_stamp,
            reply_msg.view_id,
            &reply_msg.result,
        );
        self.reply_msgs.push(clone_reply(&reply_msg));
        proof {
            assert(self.reply_msgs.deep_view() =~= s0.reply_msgs.push(r0));
            lemma_reply_voters_push(s0.reply_msgs, r0, r0.time_stamp, r0.view_id, r0.result);
            lemma_reply_voters_finite(s0.reply_msgs, r0.time_stamp, r0.view_id, r0.result);
            assert(reply_matches(r0, r0.time_stamp, r0.view_id, r0.result));
        }
        let cnt_after = count_reply_voters(
            &self.reply_msgs,
            reply_msg.time_stamp,
            reply_msg.view_id,
            &reply_msg.result,
        );
        let f = (self.n - 1) / 3;
        proof {
            assert((s0.n - 1) / 3 <= 1431655764) by {
                assert(s0.n - 1 <= 0xffff_ffff);
            };
            assert(self@ =~= spec_handle_reply(s0, r0).0);
        }
        let quorum: usize = (2 * f + 1) as usize;
        cnt_after == quorum && cnt_after == cnt_before + 1
    }
}

} // verus!
