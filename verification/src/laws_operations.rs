//! What the operations of a raw node do, in terms of what goes in and what
//! comes out.

use vstd::prelude::*;

use crate::eraftpb::{
    entry_views, ConfChange, ConfChangeType, ConfChangeView, ConfState, Entry, EntryType,
    HardState, Message, MessageType, MessageView, Snapshot,
};
use crate::laws_ready::reasons_to_be_ready;
use crate::raft::{
    read_state_views, Config, Consensus, Error, Raft, ReadState, SoftState, StateRole, Status,
};
use crate::raw_node::{
    conf_change_message, is_empty_snap, is_local_msg, is_response_msg, propose_message,
    read_index_message, snap_status_message, transfer_leader_message, unreachable_message, RawNode,
    RawNodeView, Ready, ReadyView, SnapshotStatus,
};
use crate::wire::{conf_change_bytes, conf_change_bytes_are_unique, encode_conf_change};

verus! {

/// Whether a message says nothing but its kind, whom it is from, its entries and whether it
/// rejects.
pub open spec fn says_no_more(m: Message) -> bool {
    &&& m.to == 0
    &&& m.term == 0
    &&& m.log_term == 0
    &&& m.index == 0
    &&& m.commit == 0
    &&& m.reject_hint == 0
    &&& m.snapshot is None
    &&& m.context@.len() == 0
}

/// What an operation that steps one message leaves alone: the states that the application has
/// seen.
pub open spec fn keeps_what_was_seen<T, C>(pre: RawNode<T, C>, post: RawNode<T, C>) -> bool {
    post@.prev_ss == pre@.prev_ss && post@.prev_hs == pre@.prev_hs
}

/// `propose` hands the consensus algorithm one message from the node, with one plain entry that
/// holds the data and the context given, whether or not they are empty.
pub proof fn propose_steps_one_plain_entry<T, C: Consensus<T>>()
    ensures
        forall|
            node: &mut RawNode<T, C>,
            context: Vec<u8>,
            data: Vec<u8>,
            res: Result<(), Error>,
        | #[trigger]
            call_ensures(RawNode::<T, C>::propose, (node, context, data), res) ==> {
                &&& exists|r: &mut Raft<T, C>, m: Message| #[trigger]
                    call_ensures(C::step, (r, m), res) && *r == (*node)@.raft && *final(r) == (
                    *final(node))@.raft
                        && m.msg_type == MessageType::MsgPropose
                        && m.from == (*node)@.raft.id
                        && says_no_more(m)
                        && !m.reject
                        && m.entries@.len() == 1
                        && m.entries@[0].entry_type == EntryType::EntryNormal
                        && m.entries@[0].term == 0
                        && m.entries@[0].index == 0
                        && m.entries@[0].data@ == data@
                        && m.entries@[0].context@ == context@
                &&& keeps_what_was_seen(*node, *final(node))
            },
{
    assert forall|m: Message, id: u64, c: Seq<u8>, d: Seq<u8>|
        #![trigger m@, propose_message(id, c, d)]
        m@ == propose_message(id, c, d) implies {
            &&& m.msg_type == MessageType::MsgPropose
            &&& m.from == id
            &&& says_no_more(m)
            &&& !m.reject
            &&& m.entries@.len() == 1
            &&& m.entries@[0].entry_type == EntryType::EntryNormal
            &&& m.entries@[0].term == 0
            &&& m.entries@[0].index == 0
            &&& m.entries@[0].data@ == d
            &&& m.entries@[0].context@ == c
        } by {
        let v = m@;
        assert(v.entries.len() == m.entries@.len());
        if v.entries.len() > 0 {
            assert(v.entries[0] == m.entries@[0]@);
        }
    }
}

/// `propose_conf_change` hands the consensus algorithm one message with one entry for a change of
/// members, which holds the bytes of the change and the context given, empty or not.
pub proof fn propose_conf_change_steps_one_entry_for_the_change<T, C: Consensus<T>>()
    ensures
        forall|
            node: &mut RawNode<T, C>,
            context: Vec<u8>,
            cc: ConfChange,
            res: Result<(), Error>,
        | #[trigger]
            call_ensures(RawNode::<T, C>::propose_conf_change, (node, context, cc), res) ==> {
                &&& exists|r: &mut Raft<T, C>, m: Message| #[trigger]
                    call_ensures(C::step, (r, m), res) && *r == (*node)@.raft && *final(r) == (
                    *final(node))@.raft
                        && m.msg_type == MessageType::MsgPropose
                        && m.from == 0
                        && says_no_more(m)
                        && !m.reject
                        && m.entries@.len() == 1
                        && m.entries@[0].entry_type == EntryType::EntryConfChange
                        && m.entries@[0].term == 0
                        && m.entries@[0].index == 0
                        && m.entries@[0].data@ == conf_change_bytes(cc@)
                        && m.entries@[0].context@ == context@
                &&& keeps_what_was_seen(*node, *final(node))
            },
{
    assert forall|m: Message, c: Seq<u8>, cv: ConfChangeView|
        #![trigger m@, conf_change_message(c, cv)]
        m@ == conf_change_message(c, cv) implies {
            &&& m.msg_type == MessageType::MsgPropose
            &&& m.from == 0
            &&& says_no_more(m)
            &&& !m.reject
            &&& m.entries@.len() == 1
            &&& m.entries@[0].entry_type == EntryType::EntryConfChange
            &&& m.entries@[0].term == 0
            &&& m.entries@[0].index == 0
            &&& m.entries@[0].data@ == conf_change_bytes(cv)
            &&& m.entries@[0].context@ == c
        } by {
        let v = m@;
        assert(v.entries.len() == m.entries@.len());
        if v.entries.len() > 0 {
            assert(v.entries[0] == m.entries@[0]@);
        }
    }
}

/// `campaign` hands the consensus algorithm the message to stand for election, with nothing in it.
pub proof fn campaign_steps_a_bare_message<T, C: Consensus<T>>()
    ensures
        forall|node: &mut RawNode<T, C>, res: Result<(), Error>| #[trigger]
            call_ensures(RawNode::<T, C>::campaign, (node,), res) ==> {
                &&& exists|r: &mut Raft<T, C>, m: Message| #[trigger]
                    call_ensures(C::step, (r, m), res) && *r == (*node)@.raft && *final(r) == (
                    *final(node))@.raft
                        && m.msg_type == MessageType::MsgHup
                        && m.from == 0
                        && says_no_more(m)
                        && !m.reject
                        && m.entries@.len() == 0
                &&& keeps_what_was_seen(*node, *final(node))
            },
{
    assert forall|m: Message, t: MessageType|
        #![trigger m@, MessageView::of_type(t)]
        m@ == MessageView::of_type(t) implies {
            &&& m.msg_type == t
            &&& m.from == 0
            &&& says_no_more(m)
            &&& !m.reject
            &&& m.entries@.len() == 0
        } by {
        let v = m@;
        assert(v.entries.len() == m.entries@.len());
        if v.entries.len() > 0 {
            assert(v.entries[0] == m.entries@[0]@);
        }
    }
}

/// `report_unreachable` hands the consensus algorithm a report that names the node.
pub proof fn report_unreachable_names_the_node<T, C: Consensus<T>>()
    ensures
        forall|
            node: &mut RawNode<T, C>,
            id: u64,
        | #[trigger]
            call_ensures(RawNode::<T, C>::report_unreachable, (node, id), ()) ==> {
                &&& exists|
                    r: &mut Raft<T, C>,
                    m: Message,
                    res: Result<(), Error>,
                | #[trigger]
                    call_ensures(C::step, (r, m), res) && *r == (*node)@.raft && *final(r) == (
                    *final(node))@.raft
                        && m.msg_type == MessageType::MsgUnreachable
                        && m.from == id
                        && says_no_more(m)
                        && !m.reject
                        && m.entries@.len() == 0
                &&& keeps_what_was_seen(*node, *final(node))
            },
{
    assert forall|m: Message, i: u64|
        #![trigger m@, unreachable_message(i)]
        m@ == unreachable_message(i) implies {
            &&& m.msg_type == MessageType::MsgUnreachable
            &&& m.from == i
            &&& says_no_more(m)
            &&& !m.reject
            &&& m.entries@.len() == 0
        } by {
        let v = m@;
        assert(v.entries.len() == m.entries@.len());
        if v.entries.len() > 0 {
            assert(v.entries[0] == m.entries@[0]@);
        }
    }
}

/// `report_snapshot` hands the consensus algorithm a report that names the node, and that rejects
/// exactly if the snapshot failed.
pub proof fn report_snapshot_names_the_node_and_the_failure<T, C: Consensus<T>>()
    ensures
        forall|
            node: &mut RawNode<T, C>,
            id: u64,
            status: SnapshotStatus,
        | #[trigger]
            call_ensures(RawNode::<T, C>::report_snapshot, (node, id, status), ()) ==> {
                &&& exists|
                    r: &mut Raft<T, C>,
                    m: Message,
                    res: Result<(), Error>,
                | #[trigger]
                    call_ensures(C::step, (r, m), res) && *r == (*node)@.raft && *final(r) == (
                    *final(node))@.raft
                        && m.msg_type == MessageType::MsgSnapStatus
                        && m.from == id
                        && says_no_more(m)
                        && (m.reject <==> status == SnapshotStatus::Failure)
                        && m.entries@.len() == 0
                &&& keeps_what_was_seen(*node, *final(node))
            },
{
    assert forall|m: Message, i: u64, s: SnapshotStatus|
        #![trigger m@, snap_status_message(i, s)]
        m@ == snap_status_message(i, s) implies {
            &&& m.msg_type == MessageType::MsgSnapStatus
            &&& m.from == i
            &&& says_no_more(m)
            &&& m.reject <==> s == SnapshotStatus::Failure
            &&& m.entries@.len() == 0
        } by {
        let v = m@;
        assert(v.entries.len() == m.entries@.len());
        if v.entries.len() > 0 {
            assert(v.entries[0] == m.entries@[0]@);
        }
    }
}

/// `transfer_leader` hands the consensus algorithm a request that names the node to lead.
pub proof fn transfer_leader_names_the_node<T, C: Consensus<T>>()
    ensures
        forall|
            node: &mut RawNode<T, C>,
            transferee: u64,
        | #[trigger]
            call_ensures(RawNode::<T, C>::transfer_leader, (node, transferee), ()) ==> {
                &&& exists|
                    r: &mut Raft<T, C>,
                    m: Message,
                    res: Result<(), Error>,
                | #[trigger]
                    call_ensures(C::step, (r, m), res) && *r == (*node)@.raft && *final(r) == (
                    *final(node))@.raft
                        && m.msg_type == MessageType::MsgTransferLeader
                        && m.from == transferee
                        && says_no_more(m)
                        && !m.reject
                        && m.entries@.len() == 0
                &&& keeps_what_was_seen(*node, *final(node))
            },
{
    assert forall|m: Message, i: u64|
        #![trigger m@, transfer_leader_message(i)]
        m@ == transfer_leader_message(i) implies {
            &&& m.msg_type == MessageType::MsgTransferLeader
            &&& m.from == i
            &&& says_no_more(m)
            &&& !m.reject
            &&& m.entries@.len() == 0
        } by {
        let v = m@;
        assert(v.entries.len() == m.entries@.len());
        if v.entries.len() > 0 {
            assert(v.entries[0] == m.entries@[0]@);
        }
    }
}

/// `read_index` hands the consensus algorithm a request with one plain entry, whose data is the
/// context given.
pub proof fn read_index_holds_the_context<T, C: Consensus<T>>()
    ensures
        forall|
            node: &mut RawNode<T, C>,
            rctx: Vec<u8>,
        | #[trigger]
            call_ensures(RawNode::<T, C>::read_index, (node, rctx), ()) ==> {
                &&& exists|
                    r: &mut Raft<T, C>,
                    m: Message,
                    res: Result<(), Error>,
                | #[trigger]
                    call_ensures(C::step, (r, m), res) && *r == (*node)@.raft && *final(r) == (
                    *final(node))@.raft
                        && m.msg_type == MessageType::MsgReadIndex
                        && m.from == 0
                        && says_no_more(m)
                        && !m.reject
                        && m.entries@.len() == 1
                        && m.entries@[0].entry_type == EntryType::EntryNormal
                        && m.entries@[0].term == 0
                        && m.entries@[0].index == 0
                        && m.entries@[0].data@ == rctx@
                        && m.entries@[0].context@.len() == 0
                &&& keeps_what_was_seen(*node, *final(node))
            },
{
    assert forall|m: Message, c: Seq<u8>|
        #![trigger m@, read_index_message(c)]
        m@ == read_index_message(c) implies {
            &&& m.msg_type == MessageType::MsgReadIndex
            &&& m.from == 0
            &&& says_no_more(m)
            &&& !m.reject
            &&& m.entries@.len() == 1
            &&& m.entries@[0].entry_type == EntryType::EntryNormal
            &&& m.entries@[0].term == 0
            &&& m.entries@[0].index == 0
            &&& m.entries@[0].data@ == c
            &&& m.entries@[0].context@.len() == 0
        } by {
        let v = m@;
        assert(v.entries.len() == m.entries@.len());
        if v.entries.len() > 0 {
            assert(v.entries[0] == m.entries@[0]@);
        }
    }
}

/// `ready` and `ready_since` hand out every message that waited, in order, and leave none; all
/// else of the node stays.
pub proof fn ready_takes_every_message<T, C: Consensus<T>>()
    ensures
        forall|node: &mut RawNode<T, C>, rd: Ready| #[trigger]
            call_ensures(RawNode::<T, C>::ready, (node,), rd) ==> {
                &&& rd@ == ReadyView::of((*node)@.raft, (*node)@.prev_ss, (*node)@.prev_hs, None)
                &&& rd@.messages == (*node)@.raft.msgs@
                &&& (*final(node))@.raft.msgs@.len() == 0
                &&& (*final(node))@.raft == (Raft {
                    msgs: (*final(node))@.raft.msgs,
                    ..(*node)@.raft
                })
                &&& keeps_what_was_seen(*node, *final(node))
            },
        forall|node: &mut RawNode<T, C>, idx: u64, rd: Ready| #[trigger]
            call_ensures(RawNode::<T, C>::ready_since, (node, idx), rd) ==> {
                &&& rd@ == ReadyView::of(
                    (*node)@.raft,
                    (*node)@.prev_ss,
                    (*node)@.prev_hs,
                    Some(idx),
                )
                &&& rd@.messages == (*node)@.raft.msgs@
                &&& (*final(node))@.raft.msgs@.len() == 0
                &&& (*final(node))@.raft == (Raft {
                    msgs: (*final(node))@.raft.msgs,
                    ..(*node)@.raft
                })
                &&& keeps_what_was_seen(*node, *final(node))
            },
{
}

/// `advance` notes the hard state that the application was shown, not the one that the node is in
/// by now, unless it was nothing but zeros; without one, what was noted before stays. It has the
/// log applied up to the commit index so noted, and not at all if that is 0.
pub proof fn advance_applies_what_was_shown<T, C: Consensus<T>>()
    ensures
        forall|node: &mut RawNode<T, C>, rd: Ready| #[trigger]
            call_ensures(RawNode::<T, C>::advance, (node, rd), ()) ==> {
                let noted = match rd@.hs {
                    Some(hs) => if hs.term != 0 || hs.vote != 0 || hs.commit != 0 {
                        hs
                    } else {
                        (*node)@.prev_hs
                    },
                    None => (*node)@.prev_hs,
                };
                &&& (*final(node))@.prev_hs == noted
                &&& (*final(node))@.prev_ss == (match rd@.ss {
                    Some(ss) => ss,
                    None => (*node)@.prev_ss,
                })
                &&& noted.commit != 0 ==> exists|r: &mut Raft<T, C>, upto: u64| #[trigger]
                    call_ensures(C::commit_apply, (r, upto), ()) && upto == noted.commit && *final(r)
                        == (*final(node))@.raft && (*node)@.saved(
                        rd@,
                        RawNodeView { raft: *r, ..(*final(node))@ },
                    ) && (*r).raft_log.applied == (*node)@.raft.raft_log.applied && (*r).msgs
                        == (*node)@.raft.msgs
                &&& noted.commit == 0 ==> (*node)@.saved(rd@, (*final(node))@)
                    && (*final(node))@.raft.raft_log.applied == (*node)@.raft.raft_log.applied
                    && (*final(node))@.raft.msgs == (*node)@.raft.msgs
            },
{
}

/// `advance_append` notes what was shown as `advance` does, and has nothing applied.
pub proof fn advance_append_notes_what_was_shown<T, C: Consensus<T>>()
    ensures
        forall|node: &mut RawNode<T, C>, rd: Ready| #[trigger]
            call_ensures(RawNode::<T, C>::advance_append, (node, rd), ()) ==> {
                let noted = match rd@.hs {
                    Some(hs) => if hs.term != 0 || hs.vote != 0 || hs.commit != 0 {
                        hs
                    } else {
                        (*node)@.prev_hs
                    },
                    None => (*node)@.prev_hs,
                };
                &&& (*final(node))@.prev_hs == noted
                &&& (*final(node))@.prev_ss == (match rd@.ss {
                    Some(ss) => ss,
                    None => (*node)@.prev_ss,
                })
                &&& (*final(node))@.raft.raft_log.applied == (*node)@.raft.raft_log.applied
                &&& (*final(node))@.raft.raft_log.committed == (*node)@.raft.raft_log.committed
                &&& (*final(node))@.raft.msgs == (*node)@.raft.msgs
                &&& (*node)@.saved(rd@, (*final(node))@)
            },
{
}

/// `advance_apply` has the log applied up to the index given.
pub proof fn advance_apply_applies_the_index<T, C: Consensus<T>>()
    ensures
        forall|node: &mut RawNode<T, C>, applied: u64| #[trigger]
            call_ensures(RawNode::<T, C>::advance_apply, (node, applied), ()) ==> {
                &&& exists|r: &mut Raft<T, C>| #[trigger]
                    call_ensures(C::commit_apply, (r, applied), ()) && *r == (*node)@.raft && *final(r)
                        == (*final(node))@.raft
                &&& keeps_what_was_seen(*node, *final(node))
            },
{
}

/// `tick` passes on what the consensus algorithm says of its tick, and `ping` has a leader, and no
/// other node, send its heartbeats.
pub proof fn tick_and_ping_reach_the_algorithm<T, C: Consensus<T>>()
    ensures
        forall|node: &mut RawNode<T, C>, res: bool| #[trigger]
            call_ensures(RawNode::<T, C>::tick, (node,), res) ==> {
                &&& exists|r: &mut Raft<T, C>| #[trigger]
                    call_ensures(C::tick, (r,), res) && *r == (*node)@.raft && *final(r) == (*final(
                    node))@.raft
                &&& keeps_what_was_seen(*node, *final(node))
            },
        forall|node: &mut RawNode<T, C>| #[trigger]
            call_ensures(RawNode::<T, C>::ping, (node,), ()) ==> {
                &&& (*node)@.raft.state == StateRole::Leader ==> exists|r: &mut Raft<T, C>|
                    #[trigger] call_ensures(C::ping, (r,), ()) && *r == (*node)@.raft && *final(r)
                        == (*final(node))@.raft
                &&& (*node)@.raft.state != StateRole::Leader ==> (*final(node))@.raft
                    == (*node)@.raft
                &&& keeps_what_was_seen(*node, *final(node))
            },
{
}

/// `step` refuses the messages that a node sends only to itself, and answers from nodes that it
/// does not track; it leaves the node as it was then. Every other message reaches the consensus
/// algorithm as it is, and what the algorithm answers is passed on.
pub proof fn step_refuses_local_messages_and_strangers<T, C: Consensus<T>>()
    ensures
        forall|node: &mut RawNode<T, C>, m: Message, res: Result<(), Error>| #[trigger]
            call_ensures(RawNode::<T, C>::step, (node, m), res) ==> {
                let t = m.msg_type;
                let local = t == MessageType::MsgHup || t == MessageType::MsgBeat || t
                    == MessageType::MsgUnreachable || t == MessageType::MsgSnapStatus || t
                    == MessageType::MsgCheckQuorum;
                let response = t == MessageType::MsgAppendResponse || t
                    == MessageType::MsgRequestVoteResponse || t
                    == MessageType::MsgHeartbeatResponse || t
                    == MessageType::MsgRequestPreVoteResponse;
                let known = (*node)@.raft.prs.peers@.contains(m.from);
                &&& local ==> res == Err::<(), Error>(Error::StepLocalMsg) && (*final(node))@
                    == (*node)@
                &&& response && !known ==> res == Err::<(), Error>(Error::StepPeerNotFound) && (
                *final(node))@ == (*node)@
                &&& !local && (!response || known) ==> exists|r: &mut Raft<T, C>| #[trigger]
                    call_ensures(C::step, (r, m), res) && *r == (*node)@.raft && *final(r) == (
                    *final(node))@.raft
                &&& keeps_what_was_seen(*node, *final(node))
            },
{
}

/// `try_apply_conf_change` hands every change that names a node, and every beginning of a change of
/// many, to the method of the consensus algorithm for its kind, whatever else the change holds. If
/// the algorithm agrees, all voters and learners in force are reported; if not, its error is. Any
/// other change leaves the node as it was, and the members that it tracks are reported.
pub proof fn changes_of_members_reach_the_algorithm<T, C: Consensus<T>>()
    ensures
        forall|node: &mut RawNode<T, C>, cc: &ConfChange, res: Result<ConfState, Error>| #[trigger]
            call_ensures(RawNode::<T, C>::try_apply_conf_change, (node, cc), res) ==> {
                let t = cc.change_type;
                let named = cc.node_id != 0;
                let begins = t == ConfChangeType::BeginMembershipChange;
                &&& !named && !begins ==> {
                    &&& (*final(node))@ == (*node)@
                    &&& res is Ok
                    &&& res->Ok_0.nodes@ == (*node)@.raft.prs.voter_ids@
                    &&& res->Ok_0.learners@ == (*node)@.raft.prs.learner_ids@
                }
                &&& named && t == ConfChangeType::AddNode ==> exists|
                    r: &mut Raft<T, C>,
                    done: Result<(), Error>,
                | #[trigger]
                    call_ensures(C::add_node, (r, cc.node_id), done) && *r == (*node)@.raft && *final(r)
                        == (*final(node))@.raft && (done is Ok <==> res is Ok) && (done is Err
                        ==> res->Err_0 == done->Err_0)
                &&& named && t == ConfChangeType::AddLearnerNode ==> exists|
                    r: &mut Raft<T, C>,
                    done: Result<(), Error>,
                | #[trigger]
                    call_ensures(C::add_learner, (r, cc.node_id), done) && *r == (*node)@.raft && *final(r)
                        == (*final(node))@.raft && (done is Ok <==> res is Ok) && (done is Err
                        ==> res->Err_0 == done->Err_0)
                &&& named && t == ConfChangeType::RemoveNode ==> exists|
                    r: &mut Raft<T, C>,
                    done: Result<(), Error>,
                | #[trigger]
                    call_ensures(C::remove_node, (r, cc.node_id), done) && *r == (*node)@.raft && *final(r)
                        == (*final(node))@.raft && (done is Ok <==> res is Ok) && (done is Err
                        ==> res->Err_0 == done->Err_0)
                &&& begins ==> exists|r: &mut Raft<T, C>, done: Result<(), Error>| #[trigger]
                    call_ensures(C::begin_membership_change, (r, cc), done) && *r == (*node)@.raft
                        && *final(r) == (*final(node))@.raft && (done is Ok <==> res is Ok) && (done is Err
                        ==> res->Err_0 == done->Err_0)
                &&& named && t == ConfChangeType::FinalizeMembershipChange ==> exists|
                    r: &mut Raft<T, C>,
                    done: Result<(), Error>,
                | #[trigger]
                    call_ensures(C::finalize_membership_change, (r,), done) && *r == (*node)@.raft
                        && *final(r) == (*final(node))@.raft && (done is Ok <==> res is Ok) && (done is Err
                        ==> res->Err_0 == done->Err_0)
                &&& (named || begins) && res is Ok ==> res->Ok_0.nodes@ == (*final(
                    node))@.raft.prs.configuration.voters@ && res->Ok_0.learners@ == (*final(
                    node))@.raft.prs.configuration.learners@
                &&& keeps_what_was_seen(*node, *final(node))
            },
{
}

/// `apply_conf_change` does as `try_apply_conf_change` does, and the beginning and the end of a
/// change of many succeed.
pub proof fn applied_changes_of_members_reach_the_algorithm<T, C: Consensus<T>>()
    ensures
        forall|node: &mut RawNode<T, C>, cc: &ConfChange, res: Result<ConfState, Error>| #[trigger]
            call_ensures(RawNode::<T, C>::apply_conf_change, (node, cc), res) ==> {
                let t = cc.change_type;
                let named = cc.node_id != 0;
                let begins = t == ConfChangeType::BeginMembershipChange;
                &&& !named && !begins ==> {
                    &&& (*final(node))@ == (*node)@
                    &&& res is Ok
                    &&& res->Ok_0.nodes@ == (*node)@.raft.prs.voter_ids@
                    &&& res->Ok_0.learners@ == (*node)@.raft.prs.learner_ids@
                }
                &&& named && t == ConfChangeType::AddNode ==> exists|
                    r: &mut Raft<T, C>,
                    done: Result<(), Error>,
                | #[trigger]
                    call_ensures(C::add_node, (r, cc.node_id), done) && *r == (*node)@.raft && *final(r)
                        == (*final(node))@.raft && (done is Ok <==> res is Ok) && (done is Err
                        ==> res->Err_0 == done->Err_0)
                &&& named && t == ConfChangeType::AddLearnerNode ==> exists|
                    r: &mut Raft<T, C>,
                    done: Result<(), Error>,
                | #[trigger]
                    call_ensures(C::add_learner, (r, cc.node_id), done) && *r == (*node)@.raft && *final(r)
                        == (*final(node))@.raft && (done is Ok <==> res is Ok) && (done is Err
                        ==> res->Err_0 == done->Err_0)
                &&& named && t == ConfChangeType::RemoveNode ==> exists|
                    r: &mut Raft<T, C>,
                    done: Result<(), Error>,
                | #[trigger]
                    call_ensures(C::remove_node, (r, cc.node_id), done) && *r == (*node)@.raft && *final(r)
                        == (*final(node))@.raft && (done is Ok <==> res is Ok) && (done is Err
                        ==> res->Err_0 == done->Err_0)
                &&& begins ==> exists|r: &mut Raft<T, C>, done: Result<(), Error>| #[trigger]
                    call_ensures(C::begin_membership_change, (r, cc), done) && *r == (*node)@.raft
                        && *final(r) == (*final(node))@.raft && (done is Ok <==> res is Ok) && (done is Err
                        ==> res->Err_0 == done->Err_0)
                &&& named && t == ConfChangeType::FinalizeMembershipChange ==> exists|
                    r: &mut Raft<T, C>,
                    done: Result<(), Error>,
                | #[trigger]
                    call_ensures(C::finalize_membership_change, (r,), done) && *r == (*node)@.raft
                        && *final(r) == (*final(node))@.raft && (done is Ok <==> res is Ok) && (done is Err
                        ==> res->Err_0 == done->Err_0)
                &&& (named || begins) && res is Ok ==> res->Ok_0.nodes@ == (*final(
                    node))@.raft.prs.configuration.voters@ && res->Ok_0.learners@ == (*final(
                    node))@.raft.prs.configuration.learners@
                &&& begins || t == ConfChangeType::FinalizeMembershipChange ==> res is Ok
                &&& keeps_what_was_seen(*node, *final(node))
            },
{
}

/// What a node gives out is its own state, its own store and its own unsaved snapshot; what is
/// changed through them is changed in the node, and nothing else is.
pub proof fn a_node_gives_out_its_own<T, C: Consensus<T>>()
    ensures
        forall|node: &RawNode<T, C>, raft: &Raft<T, C>| #[trigger]
            call_ensures(RawNode::<T, C>::raft, (node,), raft) ==> *raft == node@.raft,
        forall|node: &RawNode<T, C>, store: &T| #[trigger]
            call_ensures(RawNode::<T, C>::get_store, (node,), store) ==> *store
                == node@.raft.store,
        forall|node: &RawNode<T, C>, s: Option<&Snapshot>| #[trigger]
            call_ensures(RawNode::<T, C>::get_snap, (node,), s) ==> (s is Some
                <==> node@.raft.raft_log.unstable.snapshot is Some) && (s is Some ==> *s->0
                == node@.raft.raft_log.unstable.snapshot->0),
        forall|node: &mut RawNode<T, C>, raft: &mut Raft<T, C>| #[trigger]
            call_ensures(RawNode::<T, C>::mut_raft, (node,), raft) ==> {
                &&& *raft == (*node)@.raft
                &&& (*final(node))@.raft == *final(raft)
                &&& keeps_what_was_seen(*node, *final(node))
            },
        forall|node: &mut RawNode<T, C>, store: &mut T| #[trigger]
            call_ensures(RawNode::<T, C>::mut_store, (node,), store) ==> {
                &&& *store == (*node)@.raft.store
                &&& (*final(node))@.raft == (Raft { store: *final(store), ..(*node)@.raft })
                &&& keeps_what_was_seen(*node, *final(node))
            },
{
}

/// What is read from a ready value is what it holds.
pub proof fn a_ready_value_gives_out_what_it_holds(
    rd: &Ready,
    ss: Option<&SoftState>,
    hs: Option<&HardState>,
    read_states: &[ReadState],
    entries: &[Entry],
    snapshot: &Snapshot,
    must_sync: bool,
    committed_entries: Option<&Vec<Entry>>,
    messages: &[Message],
)
    requires
        call_ensures(Ready::ss, (rd,), ss),
        call_ensures(Ready::hs, (rd,), hs),
        call_ensures(Ready::read_states, (rd,), read_states),
        call_ensures(Ready::entries, (rd,), entries),
        call_ensures(Ready::snapshot, (rd,), snapshot),
        call_ensures(Ready::must_sync, (rd,), must_sync),
        call_ensures(Ready::committed_entries, (rd,), committed_entries),
        call_ensures(Ready::messages, (rd,), messages),
    ensures
        ss is Some <==> rd@.ss is Some,
        ss is Some ==> *ss->0 == rd@.ss->0,
        hs is Some <==> rd@.hs is Some,
        hs is Some ==> *hs->0 == rd@.hs->0,
        read_states@.len() == rd@.read_states.len(),
        forall|i: int|
            #![trigger read_states@[i]]
            0 <= i < read_states@.len() ==> read_states@[i].index == rd@.read_states[i].index
                && read_states@[i].request_ctx@ == rd@.read_states[i].request_ctx,
        entries@.len() == rd@.entries.len(),
        forall|i: int|
            #![trigger entries@[i]]
            0 <= i < entries@.len() ==> entries@[i]@ == rd@.entries[i],
        snapshot@ == rd@.snapshot,
        must_sync == rd@.must_sync,
        committed_entries is Some <==> rd@.committed_entries is Some,
        committed_entries matches Some(es) ==> {
            &&& es@.len() == rd@.committed_entries->0.len()
            &&& forall|i: int|
                #![trigger es@[i]]
                0 <= i < es@.len() ==> es@[i]@ == rd@.committed_entries->0[i]
        },
        messages@ == rd@.messages,
{
    assert forall|i: int| 0 <= i < entries@.len() implies (#[trigger] entries@[i])@
        == entry_views(entries@)[i] by {}
    assert forall|i: int| 0 <= i < read_states@.len() implies (#[trigger] read_states@[i])@
        == read_state_views(read_states@)[i] by {}
    if let Some(es) = committed_entries {
        assert forall|i: int| 0 <= i < es@.len() implies (#[trigger] es@[i])@ == entry_views(es@)[i]
            by {}
    }
}

/// A node is set up with the state that the consensus algorithm makes, and the application is
/// taken to have seen its leader, role, term, vote and commit index; if the algorithm cannot make
/// one, its error is passed on.
pub proof fn new_nodes_have_shown_their_state<T, C: Consensus<T>>()
    ensures
        forall|config: &Config<C::Options>, store: T, res: Result<RawNode<T, C>, Error>| #[trigger]
            call_ensures(RawNode::<T, C>::new, (config, store), res) ==> exists|
                made: Result<Raft<T, C>, Error>,
            | #[trigger]
                call_ensures(C::new, (config, store), made) && (made is Ok <==> res is Ok) && (
                made is Err ==> res->Err_0 == made->Err_0) && (made is Ok ==> res->Ok_0@.raft
                    == made->Ok_0 && res->Ok_0@.prev_ss.leader_id == made->Ok_0.leader_id
                    && res->Ok_0@.prev_ss.raft_state == made->Ok_0.state
                    && res->Ok_0@.prev_hs.term == made->Ok_0.term && res->Ok_0@.prev_hs.vote
                    == made->Ok_0.vote && res->Ok_0@.prev_hs.commit
                    == made->Ok_0.raft_log.committed),
{
}

/// `skip_bcast_commit` and `set_batch_append` set what is given, and nothing else.
pub proof fn flags_are_set_as_given<T, C: Consensus<T>>()
    ensures
        forall|node: &mut RawNode<T, C>, skip: bool| #[trigger]
            call_ensures(RawNode::<T, C>::skip_bcast_commit, (node, skip), ()) ==> {
                &&& (*final(node))@.raft == (Raft { skip_bcast_commit: skip, ..(*node)@.raft })
                &&& keeps_what_was_seen(*node, *final(node))
            },
        forall|node: &mut RawNode<T, C>, batch: bool| #[trigger]
            call_ensures(RawNode::<T, C>::set_batch_append, (node, batch), ()) ==> {
                &&& (*final(node))@.raft == (Raft { batch_append: batch, ..(*node)@.raft })
                &&& keeps_what_was_seen(*node, *final(node))
            },
{
}

/// The status of a node tells its id, its states and how far the log is applied; a leader, and no
/// other node, tells the members that it tracks.
pub proof fn status_tells_the_state<T, C: Consensus<T>>(node: &RawNode<T, C>, s: Status<'_>)
    requires
        call_ensures(RawNode::<T, C>::status, (node,), s),
    ensures
        s.id == node@.raft.id,
        s.hs.term == node@.raft.term,
        s.hs.vote == node@.raft.vote,
        s.hs.commit == node@.raft.raft_log.committed,
        s.ss.leader_id == node@.raft.leader_id,
        s.ss.raft_state == node@.raft.state,
        s.applied == node@.raft.raft_log.applied,
        s.progress is Some <==> node@.raft.state == StateRole::Leader,
        s.progress matches Some(p) ==> *p == node@.raft.prs,
{
}

/// `has_ready` counts committed entries from what is applied, as `has_ready_since` without an
/// index; and both say no only if no message waits, nothing is unsaved, no read request is
/// answered, no state has changed and nothing is left to apply.
pub proof fn nothing_ready_means_nothing_to_do<T, C: Consensus<T>>(
    node: &RawNode<T, C>,
    idx: Option<u64>,
    b: bool,
    now: bool,
)
    requires
        call_ensures(RawNode::<T, C>::has_ready_since, (node, idx), b),
        call_ensures(RawNode::<T, C>::has_ready, (node,), now),
    ensures
        idx is None ==> b == now,
        idx == Some(node@.raft.raft_log.applied) ==> b == now,
        ({
            let raft = node@.raft;
            let log = raft.raft_log;
            let all = log.stable@ + log.unstable.entries@;
            let since = match idx {
                Some(i) => i,
                None => log.applied,
            };
            b <==> {
                ||| raft.msgs@.len() > 0
                ||| log.unstable.entries@.len() > 0
                ||| raft.read_states@.len() > 0
                ||| log.unstable.snapshot matches Some(s) && s.metadata matches Some(m) && m.index
                    != 0
                ||| exists|k: int|
                    0 <= k < all.len() && since < (#[trigger] all[k]).index <= log.committed
                ||| raft.leader_id != node@.prev_ss.leader_id
                ||| raft.state != node@.prev_ss.raft_state
                ||| (raft.term != 0 || raft.vote != 0 || log.committed != 0) && (raft.term
                    != node@.prev_hs.term || raft.vote != node@.prev_hs.vote || log.committed
                    != node@.prev_hs.commit)
            }
        }),
{
    reasons_to_be_ready(node@, idx);
}

/// The messages and the committed entries that are taken out of a ready value are all that it held,
/// and all else in it stays.
pub proof fn what_is_taken_is_all_there_was()
    ensures
        forall|rd: &mut Ready, taken: Vec<Message>| #[trigger]
            call_ensures(Ready::take_messages, (rd,), taken) ==> {
                &&& taken@ == (*rd)@.messages
                &&& (*final(rd))@.messages.len() == 0
                &&& (*final(rd))@ == (ReadyView { messages: (*final(rd))@.messages, ..(*rd)@ })
            },
        forall|rd: &mut Ready, taken: Option<Vec<Entry>>| #[trigger]
            call_ensures(Ready::take_committed_entries, (rd,), taken) ==> {
                &&& taken is Some <==> (*rd)@.committed_entries is Some
                &&& taken matches Some(es) ==> {
                    &&& es@.len() == (*rd)@.committed_entries->0.len()
                    &&& forall|i: int|
                        #![trigger es@[i]]
                        0 <= i < es@.len() ==> es@[i]@ == (*rd)@.committed_entries->0[i]
                }
                &&& (*final(rd))@ == (ReadyView { committed_entries: None, ..(*rd)@ })
            },
{
    assert forall|es: Vec<Entry>, i: int| 0 <= i < es@.len() implies (#[trigger] es@[i])@
        == entry_views(es@)[i] by {}
}

/// Which kinds of messages a node sends only to itself, which answer another one, and which
/// snapshots are empty.
pub proof fn messages_and_snapshots_are_told_apart(
    t: MessageType,
    local: bool,
    response: bool,
    s: &Snapshot,
    empty: bool,
)
    requires
        call_ensures(is_local_msg, (t,), local),
        call_ensures(is_response_msg, (t,), response),
        call_ensures(is_empty_snap, (s,), empty),
    ensures
        local <==> (t == MessageType::MsgHup || t == MessageType::MsgBeat || t
            == MessageType::MsgUnreachable || t == MessageType::MsgSnapStatus || t
            == MessageType::MsgCheckQuorum),
        response <==> (t == MessageType::MsgAppendResponse || t
            == MessageType::MsgRequestVoteResponse || t == MessageType::MsgHeartbeatResponse || t
            == MessageType::MsgUnreachable || t == MessageType::MsgRequestPreVoteResponse),
        empty <==> (s.metadata is None || s.metadata->0.index == 0),
{
}

/// Two changes of members are written as the same bytes only if they are the same in every field.
pub proof fn written_changes_differ(a: &ConfChange, b: &ConfChange, x: Vec<u8>, y: Vec<u8>)
    requires
        call_ensures(encode_conf_change, (a,), x),
        call_ensures(encode_conf_change, (b,), y),
        x@ == y@,
    ensures
        a.id == b.id,
        a.change_type == b.change_type,
        a.node_id == b.node_id,
        a.context@ == b.context@,
        a.start_index == b.start_index,
        a.configuration is Some <==> b.configuration is Some,
        a.configuration is Some ==> a.configuration->0.nodes@ == b.configuration->0.nodes@
            && a.configuration->0.learners@ == b.configuration->0.learners@,
{
    conf_change_bytes_are_unique(a@, b@);
    let va = a@.configuration;
    let vb = b@.configuration;
    if a.configuration is Some {
        assert(va->0 == a.configuration->0@);
        assert(vb->0 == b.configuration->0@);
    }
}

} // verus!
