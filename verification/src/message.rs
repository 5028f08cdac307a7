use vstd::prelude::*;

verus! {

/// Kind tag distinguishing the two semantic roles of a `VoteMsg`:
/// a prepare vote or a commit vote.
#[derive(Clone, Copy, PartialEq, Eq, Structural, Debug)]
pub enum MsgType {
    PrepareMsg,
    CommitMsg,
}

/// A client request `<REQUEST, o, t, c>`: an operation string, the client's
/// timestamp and id, the sequence number the primary later assigns, and the
/// digest that binds the other fields (computed on receipt, never sent on
/// the wire).
#[derive(Clone, Debug)]
pub struct RequestMsg {
    pub operation: String,
    pub time_stamp: u64,
    pub client_id: u32,
    pub sequence_id: u32,
    pub digest: String,
}

/// A primary's `<<PRE-PREPARE, v, n, d>, m>`: the (view, sequence, digest)
/// triple this round is bound to, together with the request itself.
#[derive(Clone, Debug)]
pub struct PrePrepareMsg {
    pub view_id: u32,
    pub sequence_id: u32,
    pub digest: String,
    pub request_msg: RequestMsg,
}

/// A prepare or commit vote for a (view, sequence, digest) triple, tagged
/// with the voting replica's id.
#[derive(Clone, Debug)]
pub struct VoteMsg {
    pub view_id: u32,
    pub sequence_id: u32,
    pub digest: String,
    pub node_id: u32,
    pub msg_type: MsgType,
}

/// A replica's acknowledgement to the client after executing (echoing) the
/// committed operation.
#[derive(Clone, Debug)]
pub struct ReplyMsg {
    pub time_stamp: u64,
    pub view_id: u32,
    pub node_id: u32,
    pub client_id: u32,
    pub result: String,
}

/// Mathematical model of a `RequestMsg`: the strings as character sequences.
#[verifier::ext_equal]
pub struct RequestData {
    pub operation: Seq<char>,
    pub time_stamp: u64,
    pub client_id: u32,
    pub sequence_id: u32,
    pub digest: Seq<char>,
}

/// Mathematical model of a `PrePrepareMsg`.
#[verifier::ext_equal]
pub struct PrePrepareData {
    pub view_id: u32,
    pub sequence_id: u32,
    pub digest: Seq<char>,
    pub request_msg: RequestData,
}

/// Mathematical model of a `VoteMsg`.
#[verifier::ext_equal]
pub struct VoteData {
    pub view_id: u32,
    pub sequence_id: u32,
    pub digest: Seq<char>,
    pub node_id: u32,
    pub msg_type: MsgType,
}

/// Mathematical model of a `ReplyMsg`.
#[verifier::ext_equal]
pub struct ReplyData {
    pub time_stamp: u64,
    pub view_id: u32,
    pub node_id: u32,
    pub client_id: u32,
    pub result: Seq<char>,
}

impl View for RequestMsg {
    type V = RequestData;

    open spec fn view(&self) -> RequestData {
        RequestData {
            operation: self.operation@,
            time_stamp: self.time_stamp,
            client_id: self.client_id,
            sequence_id: self.sequence_id,
            digest: self.digest@,
        }
    }
}

impl DeepView for RequestMsg {
    type V = RequestData;

    open spec fn deep_view(&self) -> RequestData {
        self.view()
    }
}

impl View for PrePrepareMsg {
    type V = PrePrepareData;

    open spec fn view(&self) -> PrePrepareData {
        PrePrepareData {
            view_id: self.view_id,
            sequence_id: self.sequence_id,
            digest: self.digest@,
            request_msg: self.request_msg@,
        }
    }
}

impl DeepView for PrePrepareMsg {
    type V = PrePrepareData;

    open spec fn deep_view(&self) -> PrePrepareData {
        self.view()
    }
}

impl View for VoteMsg {
    type V = VoteData;

    open spec fn view(&self) -> VoteData {
        VoteData {
            view_id: self.view_id,
            sequence_id: self.sequence_id,
            digest: self.digest@,
            node_id: self.node_id,
            msg_type: self.msg_type,
        }
    }
}

impl DeepView for VoteMsg {
    type V = VoteData;

    open spec fn deep_view(&self) -> VoteData {
        self.view()
    }
}

impl View for ReplyMsg {
    type V = ReplyData;

    open spec fn view(&self) -> ReplyData {
        ReplyData {
            time_stamp: self.time_stamp,
            view_id: self.view_id,
            node_id: self.node_id,
            client_id: self.client_id,
            result: self.result@,
        }
    }
}

impl DeepView for ReplyMsg {
    type V = ReplyData;

    open spec fn deep_view(&self) -> ReplyData {
        self.view()
    }
}

} // verus!
