//! What the messages hold that carry an application's requests, and which
//! changes of members reach the consensus algorithm.

use vstd::prelude::*;

use crate::eraftpb::{
    ConfChangeType, ConfChangeView, ConfState, EntryType, MessageType, MessageView,
};
use crate::raft::{Error, Raft};
use crate::raw_node::{
    conf_change_is_noop, conf_change_message, conf_change_outcome, members_once, propose_message,
    read_index_message, snap_status_message, transfer_leader_message, unreachable_message,
    SnapshotStatus,
};
use crate::wire::{conf_change_bytes, conf_change_bytes_are_unique};

verus! {

/// A proposal comes from the node and holds one plain entry, with the data and the context given,
/// empty or not, and with no term or index yet. Nothing else is set.
pub proof fn proposal_holds_the_data(id: u64, context: Seq<u8>, data: Seq<u8>)
    ensures
        ({
            let m = propose_message(id, context, data);
            &&& m.msg_type == MessageType::MsgPropose
            &&& m.from == id
            &&& m.entries.len() == 1
            &&& m.entries[0].data == data
            &&& m.entries[0].context == context
            &&& m.entries[0].entry_type == EntryType::EntryNormal
            &&& m.entries[0].term == 0 && m.entries[0].index == 0
            &&& m.to == 0 && m.term == 0 && m.log_term == 0 && m.index == 0 && m.commit == 0
            &&& m.reject_hint == 0 && !m.reject && m.snapshot is None && m.context.len() == 0
        }),
{
}

/// Two proposals are the same message only if node, data and context are the same.
pub proof fn proposals_differ(
    id1: u64,
    context1: Seq<u8>,
    data1: Seq<u8>,
    id2: u64,
    context2: Seq<u8>,
    data2: Seq<u8>,
)
    requires
        propose_message(id1, context1, data1) == propose_message(id2, context2, data2),
    ensures
        id1 == id2,
        context1 == context2,
        data1 == data2,
{
    proposal_holds_the_data(id1, context1, data1);
    proposal_holds_the_data(id2, context2, data2);
}

/// The proposal of a change of members holds one entry for such a change, with the bytes of the
/// change as its data, and the context given, empty or not. It does not say whom it is from, and
/// nothing else is set.
pub proof fn conf_change_proposal_holds_the_change(context: Seq<u8>, cc: ConfChangeView)
    ensures
        ({
            let m = conf_change_message(context, cc);
            &&& m.msg_type == MessageType::MsgPropose
            &&& m.from == 0
            &&& m.entries.len() == 1
            &&& m.entries[0].entry_type == EntryType::EntryConfChange
            &&& m.entries[0].data == conf_change_bytes(cc)
            &&& m.entries[0].context == context
            &&& m.entries[0].term == 0 && m.entries[0].index == 0
            &&& m.to == 0 && m.term == 0 && m.log_term == 0 && m.index == 0 && m.commit == 0
            &&& m.reject_hint == 0 && !m.reject && m.snapshot is None && m.context.len() == 0
        }),
{
}

/// Two proposals of changes of members are the same message only if the changes and the contexts
/// are the same.
pub proof fn conf_change_proposals_differ(
    context1: Seq<u8>,
    cc1: ConfChangeView,
    context2: Seq<u8>,
    cc2: ConfChangeView,
)
    requires
        conf_change_message(context1, cc1) == conf_change_message(context2, cc2),
    ensures
        context1 == context2,
        cc1 == cc2,
{
    conf_change_proposal_holds_the_change(context1, cc1);
    conf_change_proposal_holds_the_change(context2, cc2);
    conf_change_bytes_are_unique(cc1, cc2);
}

/// No proposal of a change of members can be taken for a proposal of plain data, nor the other
/// way round.
pub proof fn conf_change_proposal_is_no_plain_one(
    context1: Seq<u8>,
    cc: ConfChangeView,
    id: u64,
    context2: Seq<u8>,
    data: Seq<u8>,
)
    ensures
        conf_change_message(context1, cc) != propose_message(id, context2, data),
        conf_change_message(context1, cc).entries[0].entry_type != propose_message(
            id,
            context2,
            data,
        ).entries[0].entry_type,
{
    conf_change_proposal_holds_the_change(context1, cc);
    proposal_holds_the_data(id, context2, data);
}

/// The report of an unreachable node and the request to transfer leadership name the node as the
/// sender, and hold nothing else.
pub proof fn reports_name_the_node(id: u64)
    ensures
        ({
            let m = unreachable_message(id);
            &&& m.msg_type == MessageType::MsgUnreachable
            &&& m.from == id
            &&& m.entries.len() == 0
            &&& m.to == 0 && m.term == 0 && m.log_term == 0 && m.index == 0 && m.commit == 0
            &&& m.reject_hint == 0 && !m.reject && m.snapshot is None && m.context.len() == 0
        }),
        ({
            let m = transfer_leader_message(id);
            &&& m.msg_type == MessageType::MsgTransferLeader
            &&& m.from == id
            &&& m.entries.len() == 0
            &&& m.to == 0 && m.term == 0 && m.log_term == 0 && m.index == 0 && m.commit == 0
            &&& m.reject_hint == 0 && !m.reject && m.snapshot is None && m.context.len() == 0
        }),
{
}

/// The report of what became of a snapshot names the node as the sender, rejects exactly if the
/// snapshot failed, and holds nothing else.
pub proof fn snapshot_report_rejects_a_failure(id: u64, status: SnapshotStatus)
    ensures
        ({
            let m = snap_status_message(id, status);
            &&& m.msg_type == MessageType::MsgSnapStatus
            &&& m.from == id
            &&& m.reject <==> status == SnapshotStatus::Failure
            &&& m.entries.len() == 0
            &&& m.to == 0 && m.term == 0 && m.log_term == 0 && m.index == 0 && m.commit == 0
            &&& m.reject_hint == 0 && m.snapshot is None && m.context.len() == 0
        }),
{
}

/// The request of a read state holds one plain entry, with the context of the request as its
/// data, and nothing else: so two requests are the same message only if their contexts are.
pub proof fn read_request_holds_its_context(rctx: Seq<u8>, other: Seq<u8>)
    ensures
        ({
            let m = read_index_message(rctx);
            &&& m.msg_type == MessageType::MsgReadIndex
            &&& m.from == 0
            &&& m.entries.len() == 1
            &&& m.entries[0].data == rctx
            &&& m.entries[0].context.len() == 0
            &&& m.entries[0].entry_type == EntryType::EntryNormal
            &&& m.entries[0].term == 0 && m.entries[0].index == 0
            &&& m.to == 0 && m.term == 0 && m.log_term == 0 && m.index == 0 && m.commit == 0
            &&& m.reject_hint == 0 && !m.reject && m.snapshot is None && m.context.len() == 0
        }),
        read_index_message(rctx) == read_index_message(other) ==> rctx == other,
{
    let m = read_index_message(rctx);
    let n = read_index_message(other);
    assert(m.entries[0].data == rctx);
    assert(n.entries[0].data == other);
}

/// A change of members reaches the consensus algorithm if it names a node or begins a change of
/// many, whatever its id, context, configuration and start index are; all others change nothing.
pub proof fn every_named_change_is_made(cc: ConfChangeView)
    ensures
        cc.node_id != 0 ==> !conf_change_is_noop(cc),
        cc.change_type == ConfChangeType::BeginMembershipChange ==> !conf_change_is_noop(cc),
        cc.node_id == 0 && cc.change_type != ConfChangeType::BeginMembershipChange
            ==> conf_change_is_noop(cc),
{
}

/// Whether a change of members changes nothing depends on its node and its kind alone.
pub proof fn node_and_kind_decide_whether_a_change_is_made(a: ConfChangeView, b: ConfChangeView)
    requires
        a.node_id == b.node_id,
        a.change_type == b.change_type,
    ensures
        conf_change_is_noop(a) == conf_change_is_noop(b),
{
}

/// A change that was made reports the voters and learners in force after it, in full; a refused
/// one reports why it was refused.
pub proof fn made_changes_report_the_members_in_force<T, C>(
    done: Result<(), Error>,
    raft: Raft<T, C>,
    res: Result<ConfState, Error>,
)
    requires
        conf_change_outcome(done, raft, res),
    ensures
        done is Ok <==> res is Ok,
        done is Err ==> res->Err_0 == done->Err_0,
        res matches Ok(cs) ==> cs.nodes@ == raft.prs.configuration.voters@ && cs.learners@
            == raft.prs.configuration.learners@,
{
}

/// Where no id occurs twice in what was tracked before a change that changes nothing, or is in
/// force after any other, no id occurs twice in what is reported.
pub proof fn reported_members_occur_once<T, C>(
    cc: ConfChangeView,
    pre: Raft<T, C>,
    post: Raft<T, C>,
    cs: ConfState,
)
    requires
        members_once(cc, pre, post, cs),
        if cc.node_id == 0 && cc.change_type != ConfChangeType::BeginMembershipChange {
            pre.prs.wf()
        } else {
            post.prs.configuration.wf()
        },
    ensures
        cs.nodes@.no_duplicates(),
        cs.learners@.no_duplicates(),
{
}

} // verus!
